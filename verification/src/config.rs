//! Configuration records and the paths they are stored under.
//!
//! The records themselves are opaque key-value pairs to the pipeline; disk
//! reads and writes happen outside the library, which only fixes the exact
//! path layout under the user's home directory.

use vstd::prelude::*;

verus! {

/// SendSafely API credentials, loaded once per run and read-only after.
pub struct SendSafelyConfig {
    pub ss_api_key: String,
    pub ss_api_secret: String,
}

/// The Zendesk base URL used by the external ticket collaborator.
pub struct ZendeskConfig {
    pub zendesk_url: String,
}

/// The configuration directory under a given home directory.
pub open spec fn spec_config_dir(home: Seq<char>) -> Seq<char> {
    home + "/.config/ssdownloader"@
}

/// A file path directly under the configuration directory.
pub open spec fn spec_config_file(home: Seq<char>, file: Seq<char>) -> Seq<char> {
    spec_config_dir(home) + "/"@ + file
}

/// Relies on `dirs::home_dir`, which reports the user's home directory, if
/// any, from the environment; `None` also stands for a path that is not
/// valid Unicode. Nothing can be promised of the value.
#[verifier::external_body]
fn home_dir_string() -> Option<String> {
    match dirs::home_dir() {
        Some(p) => match p.to_str() {
            Some(s) => Some(s.to_string()),
            None => None,
        },
        None => None,
    }
}

/// The configuration directory rooted at `home`.
pub fn config_dir_of(home: &str) -> (r: String)
    ensures
        r@ == spec_config_dir(home@),
{
    let s = home.to_owned().concat("/.config/ssdownloader");
    s
}

/// A file directly under the configuration directory rooted at `home`.
pub fn config_file_in(home: &str, file: &str) -> (r: String)
    ensures
        r@ == spec_config_file(home@, file@),
{
    let s = config_dir_of(home).concat("/").concat(file);
    proof {
        assert(s@ =~= spec_config_file(home@, file@));
    }
    s
}

/// The configuration directory of the current user, when a home directory
/// can be determined.
pub fn config_dir() -> (r: Option<String>)
    ensures
        r matches Some(p) ==> exists|h: Seq<char>| p@ == spec_config_dir(h),
{
    match home_dir_string() {
        Some(home) => {
            let d = config_dir_of(home.as_str());
            proof {
                assert(d@ == spec_config_dir(home@));
            }
            Some(d)
        },
        None => None,
    }
}

/// The path of the SendSafely credentials file, when a home directory can
/// be determined.
pub fn config_file_ss() -> (r: Option<String>)
    ensures
        r matches Some(p) ==> exists|h: Seq<char>| p@ == spec_config_file(h, "ssendsafely.toml"@),
{
    match home_dir_string() {
        Some(home) => {
            let p = config_file_in(home.as_str(), "ssendsafely.toml");
            proof {
                assert(p@ == spec_config_file(home@, "ssendsafely.toml"@));
            }
            Some(p)
        },
        None => None,
    }
}

/// The path of the Zendesk configuration file, when a home directory can
/// be determined.
pub fn config_file_zendesk() -> (r: Option<String>)
    ensures
        r matches Some(p) ==> exists|h: Seq<char>| p@ == spec_config_file(h, "zendesk.toml"@),
{
    match home_dir_string() {
        Some(home) => {
            let p = config_file_in(home.as_str(), "zendesk.toml");
            proof {
                assert(p@ == spec_config_file(home@, "zendesk.toml"@));
            }
            Some(p)
        },
        None => None,
    }
}

} // verus!
