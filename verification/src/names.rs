//! Collision-free assignment of on-disk file names.
//!
//! Files keep their declared names; when a name is already taken inside
//! the same destination directory, a numbered suffix is tried, counting
//! up, so concurrent writers never share a path and nothing is silently
//! overwritten.

use vstd::prelude::*;
use crate::clock::{digit_char, push_digit};
use crate::link::str_eq;

verus! {

/// Decimal rendering of `n`, without leading zeros.
pub open spec fn render_nat(n: nat) -> Seq<char>
    decreases n,
{
    if n < 10 {
        seq![digit_char(n as int)]
    } else {
        render_nat(n / 10) + seq![digit_char((n % 10) as int)]
    }
}

/// Renders `n` in decimal.
pub fn render_u64(n: u64) -> (r: String)
    ensures
        r@ == render_nat(n as nat),
    decreases n,
{
    if n < 10 {
        let mut s = String::new();
        push_digit(&mut s, n as u8);
        proof {
            assert(s@ =~= render_nat(n as nat));
        }
        s
    } else {
        let mut s = render_u64(n / 10);
        push_digit(&mut s, (n % 10) as u8);
        proof {
            assert(s@ =~= render_nat(n as nat));
        }
        s
    }
}

/// True when some entry of `v` reads exactly like `s`.
pub fn contains_str(v: &Vec<String>, s: &str) -> (r: bool)
    ensures
        r == exists|j: int| 0 <= j < v@.len() && v@[j]@ == s@,
{
    let n = v.len();
    let mut i: usize = 0;
    while i < n
        invariant
            i <= n,
            n == v@.len(),
            forall|j: int| 0 <= j < i ==> v@[j]@ != s@,
        decreases n - i,
    {
        if str_eq(v[i].as_str(), s) {
            return true;
        }
        i = i + 1;
    }
    false
}

/// Picks a final on-disk name for `name` that collides with nothing in
/// `used`: the declared name itself when it is free, otherwise the first
/// free numbered variant, and in the last resort a name longer than
/// everything taken.
pub fn disambiguate(name: &str, used: &Vec<String>) -> (r: String)
    ensures
        forall|j: int| 0 <= j < used@.len() ==> r@ != used@[j]@,
        (forall|j: int| 0 <= j < used@.len() ==> name@ != used@[j]@) ==> r@ == name@,
{
    if !contains_str(used, name) {
        return name.to_owned();
    }
    let bound = used.len();
    let mut t: usize = 0;
    while t < bound
        invariant
            exists|j: int| 0 <= j < used@.len() && used@[j]@ == name@,
        decreases bound - t,
    {
        let cand = name.to_owned().concat(".").concat(render_u64((t + 1) as u64).as_str());
        if !contains_str(used, cand.as_str()) {
            return cand;
        }
        t = t + 1;
    }
    // Every numbered variant up to the number of taken names is taken
    // too; fall back to a name strictly longer than everything taken.
    let mut maxlen: usize = 0;
    let mut i: usize = 0;
    while i < bound
        invariant
            i <= bound,
            bound == used@.len(),
            exists|j: int| 0 <= j < used@.len() && used@[j]@ == name@,
            forall|j: int| 0 <= j < i ==> used@[j]@.len() <= maxlen,
        decreases bound - i,
    {
        let l = used[i].as_str().unicode_len();
        if l > maxlen {
            maxlen = l;
        }
        i = i + 1;
    }
    let mut cand = name.to_owned().concat(".");
    while cand.as_str().unicode_len() <= maxlen
        invariant
            exists|j: int| 0 <= j < used@.len() && used@[j]@ == name@,
            forall|j: int| 0 <= j < used@.len() ==> used@[j]@.len() <= maxlen,
        decreases maxlen + 1 - cand@.len(),
    {
        proof {
            reveal_strlit("x");
        }
        cand.append("x");
    }
    cand
}

/// Final on-disk names for a package's declared file names: pairwise
/// distinct, and identical to the declared name wherever that name is
/// still free. Two files declaring the same name thus land under two
/// distinct paths, and neither overwrites the other.
pub fn assign_names(declared: &Vec<String>) -> (r: Vec<String>)
    ensures
        r@.len() == declared@.len(),
        forall|i: int, j: int| 0 <= i < j < r@.len() ==> r@[i]@ != r@[j]@,
        forall|i: int|
            0 <= i < r@.len() ==> ((forall|j: int| 0 <= j < i ==> declared@[i]@ != r@[j]@)
                ==> r@[i]@ == declared@[i]@),
{
    let n = declared.len();
    let mut out: Vec<String> = Vec::new();
    let mut i: usize = 0;
    while i < n
        invariant
            i <= n,
            n == declared@.len(),
            out@.len() == i,
            forall|a: int, b: int| 0 <= a < b < i ==> out@[a]@ != out@[b]@,
            forall|a: int|
                0 <= a < i ==> ((forall|j: int| 0 <= j < a ==> declared@[a]@ != out@[j]@)
                    ==> out@[a]@ == declared@[a]@),
        decreases n - i,
    {
        let f = disambiguate(declared[i].as_str(), &out);
        let ghost old_out = out@;
        out.push(f);
        proof {
            assert forall|a: int|
                0 <= a < i + 1 && (forall|j: int| 0 <= j < a ==> declared@[a]@ != out@[j]@)
                implies out@[a]@ == declared@[a]@ by {
                if a < i {
                    assert(forall|j: int| 0 <= j <= a ==> out@[j] == old_out[j]);
                    assert(forall|j: int| 0 <= j < a ==> declared@[a]@ != old_out[j]@);
                } else {
                    assert(forall|j: int| 0 <= j < i ==> out@[j] == old_out[j]);
                    assert(forall|j: int| 0 <= j < i ==> declared@[i as int]@ != old_out[j]@);
                }
            }
        }
        i = i + 1;
    }
    out
}

} // verus!
