//! Verified core of a SendSafely bulk file downloader.
//!
//! The library covers the package pipeline: parsing SendSafely links,
//! building signed request headers (including the exact wire format of the
//! request timestamp), deriving the per-package decryption key from the
//! split keycode, decrypting downloaded bytes with integrity checking, and
//! the orchestrator state machine that drives downloads with bounded
//! retries. Network and disk I/O live outside the library and feed it plain
//! values.

pub mod args;
pub mod clock;
pub mod config;
pub mod crypt;
pub mod errors;
pub mod keys;
pub mod link;
pub mod names;
pub mod orchestrator;
pub mod sendsafely;
pub mod signer;
