//! The command surface of the tool, as plain data.
//!
//! The argument parser itself lives outside the library; it hands over
//! one of these values. `Init` never touches the pipeline; `Ticket` and
//! `Link` feed it.

use vstd::prelude::*;

verus! {

/// One parsed invocation.
pub struct Args {
    pub command: Commands,
}

/// The subcommands the tool accepts.
pub enum Commands {
    /// Store credentials and the Zendesk base URL.
    Init { ss_api_key: String, ss_api_secret: String, zendesk_url: String },
    /// Download every package linked from a ticket's comments.
    Ticket { id: Option<i64>, most_recent: Option<u8> },
    /// Download every file of one package link.
    Link { link: String },
}

} // verus!
