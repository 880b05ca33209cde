//! Deriving the per-package decryption key from the split keycode.
//!
//! The client-held keycode fragment from the link and the server secret
//! released with the package metadata are combined, with a separator that
//! no keycode character can contain, and folded down to the fixed key
//! length the decryptor uses. The fold keeps a 64-bit accumulator and
//! interleaves xor with multiplication by a large prime, so its value
//! depends on every character and its position and does not collapse to
//! an affine function of the input. Empty or malformed halves are
//! rejected outright: the pipeline never proceeds with a weak or null
//! key.

use vstd::prelude::*;
use crate::errors::SsError;

verus! {

/// Length in bytes of a derived decryption key.
pub const KEY_LEN: usize = 32;

/// Initial accumulator of the 64-bit fold.
pub const FOLD_SEED: u64 = 0xcbf29ce484222325;

/// Multiplier of the 64-bit fold.
pub const FOLD_PRIME: u64 = 0x100000001b3;

/// A derived symmetric key. It lives only for the decryption of files of
/// one package and is wiped after use; nothing in the library prints or
/// stores it.
pub struct DecryptionKey {
    pub bytes: Vec<u8>,
}

impl DecryptionKey {
    /// A usable key has exactly `KEY_LEN` bytes.
    pub open spec fn wf(self) -> bool {
        self.bytes@.len() == KEY_LEN
    }

    /// Overwrites the key material with zeros, so the secret does not
    /// outlive its use.
    pub fn wipe(&mut self)
        ensures
            final(self).bytes@.len() == old(self).bytes@.len(),
            forall|i: int| 0 <= i < final(self).bytes@.len() ==> final(self).bytes@[i] == 0u8,
    {
        let n = self.bytes.len();
        let mut i: usize = 0;
        while i < n
            invariant
                i <= n,
                n == self.bytes@.len(),
                forall|j: int| 0 <= j < i ==> self.bytes@[j] == 0u8,
            decreases n - i,
        {
            self.bytes.set(i, 0);
            i = i + 1;
        }
    }
}

/// A character a keycode half may contain: ASCII letters, digits, `-`
/// and `_`.
pub open spec fn keycode_char(c: char) -> bool {
    ||| 97 <= c as int <= 122
    ||| 65 <= c as int <= 90
    ||| 48 <= c as int <= 57
    ||| c as int == 45
    ||| c as int == 95
}

/// A well-formed keycode half: non-empty and drawn from the keycode
/// alphabet.
pub open spec fn keycode_ok(s: Seq<char>) -> bool {
    s.len() > 0 && forall|i: int| 0 <= i < s.len() ==> keycode_char(#[trigger] s[i])
}

/// Both halves of the split secret are acceptable.
pub open spec fn derive_ok(fragment: Seq<char>, server_secret: Seq<char>) -> bool {
    keycode_ok(fragment) && keycode_ok(server_secret)
}

/// One 64-bit folding step: xor the value in, multiply by the prime,
/// keep the low 64 bits.
pub open spec fn spec_mix64(acc: u64, v: u64) -> u64 {
    (((acc ^ v) as int * FOLD_PRIME as int) % 0x10000000000000000) as u64
}

/// Folds a whole character sequence into the accumulator, starting from
/// `seed`.
pub open spec fn mix_seq(seed: u64, s: Seq<char>) -> u64
    decreases s.len(),
{
    if s.len() == 0 {
        seed
    } else {
        spec_mix64(mix_seq(seed, s.drop_last()), s.last() as u64)
    }
}

/// The two halves joined by a separator outside the keycode alphabet, so
/// distinct splits never fold the same combined sequence.
pub open spec fn spec_combined(fragment: Seq<char>, server_secret: Seq<char>) -> Seq<char> {
    fragment + seq!['.'] + server_secret
}

/// The derived key: byte `i` folds the combined secret from a seed that
/// depends on `i`, and keeps the low byte of the 64-bit result.
pub open spec fn spec_derive_key(fragment: Seq<char>, server_secret: Seq<char>) -> Seq<u8> {
    Seq::new(
        KEY_LEN as nat,
        |i: int| (mix_seq(FOLD_SEED ^ (i as u64), spec_combined(fragment, server_secret))
            % 256) as u8,
    )
}

/// Key derivation is a pure function of the two halves: equal inputs
/// always yield the same key, across calls, processes and machines.
pub proof fn lemma_derive_deterministic(
    f1: Seq<char>,
    s1: Seq<char>,
    f2: Seq<char>,
    s2: Seq<char>,
)
    requires
        f1 == f2,
        s1 == s2,
    ensures
        spec_derive_key(f1, s1) == spec_derive_key(f2, s2),
{
}

proof fn lemma_mix_seq_push(seed: u64, s: Seq<char>, c: char)
    ensures
        mix_seq(seed, s.push(c)) == spec_mix64(mix_seq(seed, s), c as u64),
{
    assert(s.push(c).drop_last() =~= s);
    assert(s.push(c).last() == c);
}

/// True when every character of `s` belongs to the keycode alphabet and
/// `s` is non-empty.
pub fn is_keycode(s: &str) -> (r: bool)
    ensures
        r == keycode_ok(s@),
{
    let n = s.unicode_len();
    if n == 0 {
        return false;
    }
    let mut i: usize = 0;
    while i < n
        invariant
            i <= n,
            n == s@.len(),
            forall|j: int| 0 <= j < i ==> keycode_char(#[trigger] s@[j]),
        decreases n - i,
    {
        let c = s.get_char(i);
        let u = c as u32;
        let ok = (97 <= u && u <= 122) || (65 <= u && u <= 90) || (48 <= u && u <= 57) || u == 45
            || u == 95;
        if !ok {
            assert(!keycode_char(s@[i as int]));
            return false;
        }
        i = i + 1;
    }
    true
}

/// Performs one 64-bit folding step.
pub(crate) fn mix64_step(acc: u64, v: u64) -> (r: u64)
    ensures
        r == spec_mix64(acc, v),
{
    let x = acc ^ v;
    proof {
        assert(x as int * FOLD_PRIME as int <= 0xffffffffffffffff * 0x100000001b3)
            by (nonlinear_arith)
            requires
                0 <= x as int <= 0xffffffffffffffff,
        ;
    }
    (((x as u128) * (FOLD_PRIME as u128)) % 0x10000000000000000u128) as u64
}

/// Folds one keycode half into the accumulator, continuing the fold of
/// everything already processed.
fn fold_str(acc: u64, seed: u64, done: Ghost<Seq<char>>, s: &str) -> (r: u64)
    requires
        acc == mix_seq(seed, done@),
    ensures
        r == mix_seq(seed, done@ + s@),
{
    let n = s.unicode_len();
    let mut i: usize = 0;
    let mut a = acc;
    proof {
        assert(done@ + s@.subrange(0, 0) =~= done@);
    }
    while i < n
        invariant
            i <= n,
            n == s@.len(),
            a == mix_seq(seed, done@ + s@.subrange(0, i as int)),
        decreases n - i,
    {
        let c = s.get_char(i);
        proof {
            lemma_mix_seq_push(seed, done@ + s@.subrange(0, i as int), c);
            assert((done@ + s@.subrange(0, i as int)).push(c) =~= done@ + s@.subrange(
                0,
                i as int + 1,
            ));
        }
        a = mix64_step(a, c as u64);
        i = i + 1;
    }
    proof {
        assert(done@ + s@.subrange(0, n as int) =~= done@ + s@);
    }
    a
}

/// Derives the symmetric key for one package from the link-held keycode
/// fragment and the server-held secret. Rejects empty or malformed halves
/// with `KeyDerivation`, exactly when `derive_ok` does not hold.
pub fn derive(fragment: &str, server_secret: &str) -> (r: Result<DecryptionKey, SsError>)
    ensures
        match r {
            Ok(k) => derive_ok(fragment@, server_secret@) && k.wf() && k.bytes@ == spec_derive_key(
                fragment@,
                server_secret@,
            ),
            Err(e) => e == SsError::KeyDerivation && !derive_ok(fragment@, server_secret@),
        },
{
    if !is_keycode(fragment) {
        return Err(SsError::KeyDerivation);
    }
    if !is_keycode(server_secret) {
        return Err(SsError::KeyDerivation);
    }
    let ghost combined = spec_combined(fragment@, server_secret@);
    let mut bytes: Vec<u8> = Vec::new();
    let mut i: usize = 0;
    while i < KEY_LEN
        invariant
            i <= KEY_LEN,
            bytes@.len() == i,
            combined == spec_combined(fragment@, server_secret@),
            forall|j: int|
                0 <= j < i ==> bytes@[j] == (mix_seq(FOLD_SEED ^ (j as u64), combined)
                    % 256) as u8,
        decreases KEY_LEN - i,
    {
        let seed = FOLD_SEED ^ (i as u64);
        proof {
            assert(Seq::<char>::empty() + fragment@ =~= fragment@);
        }
        let a0 = fold_str(seed, seed, Ghost(Seq::empty()), fragment);
        proof {
            lemma_mix_seq_push(seed, fragment@, '.');
            assert(fragment@.push('.') =~= fragment@ + seq!['.']);
        }
        let a1 = mix64_step(a0, '.' as u64);
        assert(a1 == mix_seq(seed, fragment@ + seq!['.']));
        let a2 = fold_str(a1, seed, Ghost(fragment@ + seq!['.']), server_secret);
        proof {
            assert(fragment@ + seq!['.'] + server_secret@ =~= combined);
        }
        bytes.push((a2 % 256) as u8);
        i = i + 1;
    }
    proof {
        assert(bytes@ =~= spec_derive_key(fragment@, server_secret@));
    }
    Ok(DecryptionKey { bytes })
}

} // verus!
