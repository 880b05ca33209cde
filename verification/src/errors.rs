//! Error taxonomy of the download pipeline.
//!
//! Every failure a package or file can run into is one of these variants;
//! the orchestrator's retry policy is driven entirely by which variant a
//! step produced.

use vstd::prelude::*;

verus! {

/// Errors of the package pipeline.
///
/// `Transient` is the only retryable variant; everything else is final for
/// the package or file it struck.
#[derive(Clone, Copy, PartialEq, Eq, Structural, Debug)]
pub enum SsError {
    /// The input URL is not a well-formed SendSafely package link.
    InvalidLink,
    /// Credentials were rejected (HTTP 401/403); fatal for the whole run.
    Auth,
    /// The package code is unknown or expired (HTTP 404).
    NotFound,
    /// A network timeout or server-side failure (HTTP 5xx); retryable.
    Transient,
    /// The response body did not have the expected shape.
    Protocol,
    /// A keycode fragment or server secret was empty or malformed.
    KeyDerivation,
    /// Decrypted bytes failed their integrity check.
    Integrity,
    /// The system clock could not be represented as a calendar time.
    Clock,
}

/// True exactly on the one error class the orchestrator may retry.
pub fn is_retryable(e: &SsError) -> (r: bool)
    ensures
        r == (*e == SsError::Transient),
{
    match e {
        SsError::Transient => true,
        _ => false,
    }
}

} // verus!
