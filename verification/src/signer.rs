//! Signed request construction for the SendSafely REST surface.
//!
//! Every API call carries the same three headers: a JSON content type, the
//! API key, and the request timestamp in the server's exact textual
//! format. The URL builders fix the shape of the package and file
//! endpoints under a base URL. The API also documents an HMAC signature
//! header; its algorithm is not fabricated here — confirming it against
//! the live API documentation is an open follow-up.

use vstd::prelude::*;
use crate::clock::{spec_timestamp, UtcTime};
use crate::config::SendSafelyConfig;

verus! {

/// The package metadata endpoint for `code` under `base`.
pub open spec fn spec_package_url(base: Seq<char>, code: Seq<char>) -> Seq<char> {
    base + "/package/"@ + code
}

/// The per-file download-URL endpoint for `file_id` of `package_id`.
pub open spec fn spec_file_url(base: Seq<char>, package_id: Seq<char>, file_id: Seq<char>) -> Seq<
    char,
> {
    base + "/package/"@ + package_id + "/file/"@ + file_id
}

/// The default SendSafely API base URL.
pub fn default_base_url() -> (r: String)
    ensures
        r@ == "https://demo.sendsafely.com/api/v2.0"@,
{
    let s = String::from_str("https://demo.sendsafely.com/api/v2.0");
    s
}

/// The package metadata endpoint for `code` under `base`.
pub fn package_url(base: &str, code: &str) -> (r: String)
    ensures
        r@ == spec_package_url(base@, code@),
{
    let s = base.to_owned().concat("/package/").concat(code);
    proof {
        assert(s@ =~= spec_package_url(base@, code@));
    }
    s
}

/// The per-file download-URL endpoint for `file_id` of `package_id`.
pub fn file_url(base: &str, package_id: &str, file_id: &str) -> (r: String)
    ensures
        r@ == spec_file_url(base@, package_id@, file_id@),
{
    let s = base.to_owned().concat("/package/").concat(package_id).concat("/file/").concat(file_id);
    proof {
        assert(s@ =~= spec_file_url(base@, package_id@, file_id@));
    }
    s
}

/// The three headers of a signed request: content type, API key, and the
/// request timestamp for `t`. Pure in its inputs; reading the clock is the
/// caller's concern.
pub fn build_headers(config: &SendSafelyConfig, t: &UtcTime) -> (r: Vec<String>)
    requires
        t.wf(),
    ensures
        r@.len() == 3,
        r@[0]@ == "Content-Type: application/json"@,
        r@[1]@ == "ss-api-key: "@ + config.ss_api_key@,
        r@[2]@ == "ss-request-timestamp: "@ + spec_timestamp(*t),
{
    let mut v: Vec<String> = Vec::new();
    let ct = String::from_str("Content-Type: application/json");
    v.push(ct);
    let key = String::from_str("ss-api-key: ").concat(config.ss_api_key.as_str());
    v.push(key);
    let ts = String::from_str("ss-request-timestamp: ").concat(
        crate::clock::format_timestamp(t).as_str(),
    );
    v.push(ts);
    v
}

} // verus!
