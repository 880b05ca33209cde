//! Parsing SendSafely package links.
//!
//! A shareable link carries the package code in its query string and the
//! client-held keycode fragment behind `#`, so the fragment is never sent
//! to any server. The grammar here is deliberately strict: an `https` URL
//! on a `sendsafely.com` host, a non-empty `packageCode=` value before the
//! fragment, and a non-empty `keyCode=` value inside it. Anything else is
//! rejected as an invalid link.

use vstd::prelude::*;
use crate::errors::SsError;

verus! {

/// The two halves a link contributes to a download: the public package
/// code and the client-held half of the split decryption secret.
pub struct PackageLink {
    pub package_code: String,
    pub keycode_fragment: String,
}

/// `pat` occurs in `s` starting at position `i`.
pub open spec fn occurs_at(s: Seq<char>, pat: Seq<char>, i: int) -> bool {
    0 <= i && i + pat.len() <= s.len() && s.subrange(i, i + pat.len()) == pat
}

/// The position of the first occurrence of `pat` at or after `i`.
pub open spec fn find_from(s: Seq<char>, pat: Seq<char>, i: int) -> Option<int>
    decreases s.len() - i,
    when 0 <= i <= s.len()
{
    if pat.len() == 0 {
        Some(i)
    } else if i + pat.len() > s.len() {
        None
    } else if occurs_at(s, pat, i) {
        Some(i)
    } else {
        find_from(s, pat, i + 1)
    }
}

/// The position of the first occurrence of `pat` in `s`.
pub open spec fn find_pat(s: Seq<char>, pat: Seq<char>) -> Option<int> {
    find_from(s, pat, 0)
}

proof fn lemma_find_from_bounds(s: Seq<char>, pat: Seq<char>, i: int)
    requires
        0 <= i <= s.len(),
    ensures
        find_from(s, pat, i) matches Some(j) ==> i <= j && occurs_at(s, pat, j),
    decreases s.len() - i,
{
    if pat.len() == 0 {
        assert(s.subrange(i, i + pat.len()) =~= pat);
    } else if i + pat.len() > s.len() {
    } else if occurs_at(s, pat, i) {
    } else {
        lemma_find_from_bounds(s, pat, i + 1);
    }
}

/// The first occurrence of a marker and everything a caller needs of it:
/// its bounds and that nothing earlier matches.
pub proof fn lemma_find_pat(s: Seq<char>, pat: Seq<char>)
    ensures
        find_pat(s, pat) matches Some(j) ==> 0 <= j && j + pat.len() <= s.len() && occurs_at(
            s,
            pat,
            j,
        ),
{
    lemma_find_from_bounds(s, pat, 0);
}

/// Finds the first occurrence of `pat` in `s`, by character position.
pub fn find_sub(s: &str, pat: &str) -> (r: Option<usize>)
    ensures
        match r {
            Some(i) => find_pat(s@, pat@) == Some(i as int),
            None => find_pat(s@, pat@) is None,
        },
{
    let n = s.unicode_len();
    let m = pat.unicode_len();
    if m > n {
        return None;
    }
    if m == 0 {
        return Some(0);
    }
    let mut i: usize = 0;
    loop
        invariant
            0 <= i <= n - m + 1,
            1 <= m <= n,
            n == s@.len(),
            m == pat@.len(),
            find_pat(s@, pat@) == find_from(s@, pat@, i as int),
        decreases n - m + 1 - i,
    {
        if i > n - m {
            return None;
        }
        let mut j: usize = 0;
        let mut matched = true;
        while j < m
            invariant
                0 <= j <= m,
                1 <= m,
                i + m <= n,
                n == s@.len(),
                m == pat@.len(),
                matched <==> (forall|k: int| 0 <= k < j ==> s@[i + k] == pat@[k]),
            decreases m - j,
        {
            if s.get_char(i + j) != pat.get_char(j) {
                matched = false;
                j = m;
            } else {
                j = j + 1;
            }
        }
        if matched {
            proof {
                assert(s@.subrange(i as int, i + pat@.len()) =~= pat@);
            }
            return Some(i);
        }
        proof {
            assert(!occurs_at(s@, pat@, i as int)) by {
                if occurs_at(s@, pat@, i as int) {
                    assert(forall|k: int|
                        0 <= k < m ==> s@[i + k] == #[trigger] s@.subrange(
                            i as int,
                            i + pat@.len(),
                        )[k]);
                }
            }
        }
        i = i + 1;
    }
}

/// Character-for-character equality of two string slices.
pub fn str_eq(a: &str, b: &str) -> (r: bool)
    ensures
        r == (a@ == b@),
{
    let s1 = a.to_owned();
    let s2 = b.to_owned();
    s1 == s2
}

/// The value following `marker` inside `region`, cut at the first `&`.
pub open spec fn spec_value_after(region: Seq<char>, marker: Seq<char>) -> Option<Seq<char>> {
    match find_pat(region, marker) {
        None => None,
        Some(p) => {
            let rest = region.subrange(p + marker.len(), region.len() as int);
            let e = match find_pat(rest, "&"@) {
                None => rest.len() as int,
                Some(x) => x,
            };
            Some(rest.subrange(0, e))
        },
    }
}

/// The host of `pre` (everything between `https://` and the next `/`) is
/// `sendsafely.com` itself or one of its subdomains.
pub open spec fn spec_host_ok(pre: Seq<char>) -> bool {
    &&& occurs_at(pre, "https://"@, 0)
    &&& match find_pat(pre.subrange(8, pre.len() as int), "/"@) {
        None => false,
        Some(sl) => {
            let host = pre.subrange(8, 8 + sl);
            host == "sendsafely.com"@ || (host.len() >= 15 && host.subrange(
                host.len() - 15,
                host.len() as int,
            ) == ".sendsafely.com"@)
        },
    }
}

/// The package code and keycode fragment of a link, when the link is well
/// formed: the code is read from the part before `#`, the fragment from
/// the part after it, and both must be non-empty.
pub open spec fn spec_parse_link(u: Seq<char>) -> Option<(Seq<char>, Seq<char>)> {
    match find_pat(u, "#"@) {
        None => None,
        Some(h) => {
            let pre = u.subrange(0, h);
            let frag = u.subrange(h + 1, u.len() as int);
            if !spec_host_ok(pre) {
                None
            } else {
                match (spec_value_after(pre, "packageCode="@), spec_value_after(
                    frag,
                    "keyCode="@,
                )) {
                    (Some(code), Some(key)) => if code.len() > 0 && key.len() > 0 {
                        Some((code, key))
                    } else {
                        None
                    },
                    _ => None,
                }
            }
        },
    }
}

/// A link the pipeline accepts.
pub open spec fn link_valid(u: Seq<char>) -> bool {
    spec_parse_link(u) is Some
}

/// Every accepted link yields a non-empty package code and a non-empty
/// keycode fragment.
pub proof fn lemma_valid_link_parts_nonempty(u: Seq<char>)
    requires
        link_valid(u),
    ensures
        spec_parse_link(u).unwrap().0.len() > 0,
        spec_parse_link(u).unwrap().1.len() > 0,
{
}

/// Extracts the value following `marker` in `region`, cut at the first
/// `&`, as `spec_value_after` describes.
fn value_after(region: &str, marker: &str) -> (r: Option<String>)
    ensures
        match r {
            Some(v) => spec_value_after(region@, marker@) == Some(v@),
            None => spec_value_after(region@, marker@) is None,
        },
{
    let n = region.unicode_len();
    match find_sub(region, marker) {
        None => None,
        Some(p) => {
            proof {
                lemma_find_pat(region@, marker@);
            }
            let m = marker.unicode_len();
            let rest = region.substring_char(p + m, n);
            let e = match find_sub(rest, "&") {
                None => rest.unicode_len(),
                Some(x) => {
                    proof {
                        lemma_find_pat(rest@, "&"@);
                    }
                    x
                },
            };
            let v = rest.substring_char(0, e);
            Some(v.to_owned())
        },
    }
}

/// Checks that the host of `pre` belongs to `sendsafely.com`, as
/// `spec_host_ok` describes.
fn host_ok(pre: &str) -> (r: bool)
    ensures
        r == spec_host_ok(pre@),
{
    let n = pre.unicode_len();
    match find_sub(pre, "https://") {
        None => {
            proof {
                reveal_strlit("https://");
                assert(!occurs_at(pre@, "https://"@, 0));
            }
            false
        },
        Some(p) => {
            proof {
                lemma_find_pat(pre@, "https://"@);
            }
            if p != 0 {
                proof {
                    assert(!occurs_at(pre@, "https://"@, 0));
                }
                return false;
            }
            proof {
                reveal_strlit("https://");
            }
            let after = pre.substring_char(8, n);
            match find_sub(after, "/") {
                None => false,
                Some(sl) => {
                    proof {
                        lemma_find_pat(after@, "/"@);
                    }
                    let host = after.substring_char(0, sl);
                    proof {
                        assert(host@ =~= pre@.subrange(8, 8 + sl));
                    }
                    let hl = host.unicode_len();
                    let exact = str_eq(host, "sendsafely.com");
                    if exact {
                        return true;
                    }
                    if hl >= 15 {
                        let tail = host.substring_char(hl - 15, hl);
                        let sub = str_eq(tail, ".sendsafely.com");
                        proof {
                            if sub {
                                assert(spec_host_ok(pre@));
                            } else {
                                assert(!spec_host_ok(pre@));
                            }
                        }
                        sub
                    } else {
                        false
                    }
                },
            }
        },
    }
}

/// Parses a SendSafely link into its package code and keycode fragment;
/// every link the grammar refuses yields `InvalidLink`, and never a panic.
pub fn parse_link(url: &str) -> (r: Result<PackageLink, SsError>)
    ensures
        match r {
            Ok(pl) => spec_parse_link(url@) == Some((pl.package_code@, pl.keycode_fragment@)),
            Err(e) => e == SsError::InvalidLink && !link_valid(url@),
        },
{
    let n = url.unicode_len();
    match find_sub(url, "#") {
        None => Err(SsError::InvalidLink),
        Some(h) => {
            proof {
                lemma_find_pat(url@, "#"@);
                reveal_strlit("#");
            }
            let pre = url.substring_char(0, h);
            let frag = url.substring_char(h + 1, n);
            if !host_ok(pre) {
                return Err(SsError::InvalidLink);
            }
            let code = value_after(pre, "packageCode=");
            let key = value_after(frag, "keyCode=");
            match (code, key) {
                (Some(c), Some(k)) => {
                    if c.as_str().unicode_len() > 0 && k.as_str().unicode_len() > 0 {
                        Ok(PackageLink { package_code: c, keycode_fragment: k })
                    } else {
                        Err(SsError::InvalidLink)
                    }
                },
                _ => Err(SsError::InvalidLink),
            }
        },
    }
}

/// The package code of a link, or the empty string when the link is not
/// well formed.
pub fn extract_package(url: String) -> (r: String)
    ensures
        r@ == match spec_parse_link(url@) {
            Some(parts) => parts.0,
            None => Seq::<char>::empty(),
        },
{
    match parse_link(url.as_str()) {
        Ok(pl) => pl.package_code,
        Err(_) => {
            let s = String::new();
            s
        },
    }
}

} // verus!
