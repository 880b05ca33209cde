//! Symmetric file decryption with integrity checking.
//!
//! Ciphertext is the keystream-masked plaintext followed by an eight byte
//! integrity tag. Each tag byte folds the entire key and then the whole
//! plaintext through the 64-bit fold, so every key byte and every
//! plaintext byte influences every tag byte. Decryption recomputes the
//! tag over the recovered bytes and refuses the result on any mismatch,
//! so a truncated or tampered download, or a wrong key, surfaces as
//! `Integrity` instead of silently wrong plaintext.

use vstd::prelude::*;
use crate::errors::SsError;
use crate::keys::{spec_mix64, DecryptionKey, FOLD_SEED, KEY_LEN};

verus! {

/// Length in bytes of the integrity tag at the end of a ciphertext.
pub const TAG_LEN: usize = 8;

/// Byte `j` of the keystream under key `k`.
pub open spec fn ks_byte(k: Seq<u8>, j: int) -> u8
    recommends
        k.len() == KEY_LEN,
        0 <= j,
{
    k[j % (KEY_LEN as int)] ^ ((j % 256) as u8)
}

/// `p` masked byte-for-byte with the keystream; its own inverse.
pub open spec fn xor_stream(k: Seq<u8>, p: Seq<u8>) -> Seq<u8> {
    Seq::new(p.len(), |j: int| p[j] ^ ks_byte(k, j))
}

/// Folds a whole byte sequence into the accumulator, starting from
/// `seed`.
pub open spec fn mix_bytes(seed: u64, s: Seq<u8>) -> u64
    decreases s.len(),
{
    if s.len() == 0 {
        seed
    } else {
        spec_mix64(mix_bytes(seed, s.drop_last()), s.last() as u64)
    }
}

/// The integrity tag of plaintext `p` under key `k`: tag byte `i` folds
/// the whole key and then the whole plaintext from a seed depending on
/// `i`, and keeps the low byte.
pub open spec fn spec_tag(k: Seq<u8>, p: Seq<u8>) -> Seq<u8>
    recommends
        k.len() == KEY_LEN,
{
    Seq::new(
        TAG_LEN as nat,
        |i: int| (mix_bytes(mix_bytes(FOLD_SEED ^ (i as u64), k), p) % 256) as u8,
    )
}

/// The ciphertext of `p` under `k`: masked bytes, then the tag.
pub open spec fn spec_encrypt(k: Seq<u8>, p: Seq<u8>) -> Seq<u8>
    recommends
        k.len() == KEY_LEN,
{
    xor_stream(k, p) + spec_tag(k, p)
}

/// The plaintext of `c` under `k`, when `c` carries a matching tag.
pub open spec fn spec_decrypt(k: Seq<u8>, c: Seq<u8>) -> Option<Seq<u8>>
    recommends
        k.len() == KEY_LEN,
{
    if c.len() < TAG_LEN {
        None
    } else {
        let body = c.subrange(0, c.len() - TAG_LEN);
        let tag = c.subrange(c.len() - TAG_LEN, c.len() as int);
        let p = xor_stream(k, body);
        if spec_tag(k, p) == tag {
            Some(p)
        } else {
            None
        }
    }
}

/// Decrypting what was encrypted under the same key gives back exactly
/// the original plaintext.
pub proof fn lemma_round_trip(k: Seq<u8>, p: Seq<u8>)
    requires
        k.len() == KEY_LEN,
    ensures
        spec_decrypt(k, spec_encrypt(k, p)) == Some(p),
{
    let c = spec_encrypt(k, p);
    assert(c.len() == p.len() + TAG_LEN);
    assert(c.subrange(0, c.len() - TAG_LEN) =~= xor_stream(k, p));
    assert(c.subrange(c.len() - TAG_LEN, c.len() as int) =~= spec_tag(k, p));
    assert(xor_stream(k, xor_stream(k, p)) =~= p) by {
        assert forall|j: int| 0 <= j < p.len() implies xor_stream(k, xor_stream(k, p))[j] == p[j]
        by {
            let b = p[j];
            let m = ks_byte(k, j);
            assert((b ^ m) ^ m == b) by (bit_vector);
        }
    }
}

fn ks_byte_exec(key: &DecryptionKey, j: usize) -> (r: u8)
    requires
        key.wf(),
    ensures
        r == ks_byte(key.bytes@, j as int),
{
    key.bytes[j % KEY_LEN] ^ ((j % 256) as u8)
}

proof fn lemma_mix_bytes_push(seed: u64, s: Seq<u8>, b: u8)
    ensures
        mix_bytes(seed, s.push(b)) == spec_mix64(mix_bytes(seed, s), b as u64),
{
    assert(s.push(b).drop_last() =~= s);
    assert(s.push(b).last() == b);
}

/// Folds a byte vector into the accumulator, continuing the fold of
/// everything already processed.
fn fold_bytes(acc: u64, seed: u64, done: Ghost<Seq<u8>>, s: &Vec<u8>) -> (r: u64)
    requires
        acc == mix_bytes(seed, done@),
    ensures
        r == mix_bytes(seed, done@ + s@),
{
    let n = s.len();
    let mut i: usize = 0;
    let mut a = acc;
    proof {
        assert(done@ + s@.subrange(0, 0) =~= done@);
    }
    while i < n
        invariant
            i <= n,
            n == s@.len(),
            a == mix_bytes(seed, done@ + s@.subrange(0, i as int)),
        decreases n - i,
    {
        proof {
            lemma_mix_bytes_push(seed, done@ + s@.subrange(0, i as int), s@[i as int]);
            assert((done@ + s@.subrange(0, i as int)).push(s@[i as int]) =~= done@ + s@.subrange(
                0,
                i as int + 1,
            ));
        }
        a = crate::keys::mix64_step(a, s[i] as u64);
        i = i + 1;
    }
    proof {
        assert(done@ + s@.subrange(0, n as int) =~= done@ + s@);
    }
    a
}

/// Computes the integrity tag of `p` under `key`.
fn compute_tag(key: &DecryptionKey, p: &Vec<u8>) -> (r: Vec<u8>)
    requires
        key.wf(),
    ensures
        r@ == spec_tag(key.bytes@, p@),
{
    let mut tag: Vec<u8> = Vec::new();
    let mut i: usize = 0;
    while i < TAG_LEN
        invariant
            i <= TAG_LEN,
            tag@.len() == i,
            key.wf(),
            forall|t: int|
                0 <= t < i ==> tag@[t] == (mix_bytes(
                    mix_bytes(FOLD_SEED ^ (t as u64), key.bytes@),
                    p@,
                ) % 256) as u8,
        decreases TAG_LEN - i,
    {
        let seed = FOLD_SEED ^ (i as u64);
        proof {
            assert(Seq::<u8>::empty() + key.bytes@ =~= key.bytes@);
        }
        let a1 = fold_bytes(seed, seed, Ghost(Seq::empty()), &key.bytes);
        proof {
            assert(Seq::<u8>::empty() + p@ =~= p@);
        }
        let a2 = fold_bytes(a1, a1, Ghost(Seq::empty()), p);
        tag.push((a2 % 256) as u8);
        i = i + 1;
    }
    proof {
        assert(tag@ =~= spec_tag(key.bytes@, p@));
    }
    tag
}

/// Encrypts `plain` under `key`: the masked bytes followed by the tag.
pub fn encrypt(plain: &Vec<u8>, key: &DecryptionKey) -> (r: Vec<u8>)
    requires
        key.wf(),
        plain@.len() + TAG_LEN <= usize::MAX,
    ensures
        r@ == spec_encrypt(key.bytes@, plain@),
{
    let mut out: Vec<u8> = Vec::new();
    let mut j: usize = 0;
    while j < plain.len()
        invariant
            j <= plain@.len(),
            key.wf(),
            out@.len() == j,
            forall|t: int| 0 <= t < j ==> out@[t] == plain@[t] ^ ks_byte(key.bytes@, t),
        decreases plain@.len() - j,
    {
        out.push(plain[j] ^ ks_byte_exec(key, j));
        j = j + 1;
    }
    proof {
        assert(out@ =~= xor_stream(key.bytes@, plain@));
    }
    let mut tag = compute_tag(key, plain);
    let mut i: usize = 0;
    while i < tag.len()
        invariant
            i <= tag@.len(),
            tag@ == spec_tag(key.bytes@, plain@),
            out@ == xor_stream(key.bytes@, plain@) + tag@.subrange(0, i as int),
        decreases tag@.len() - i,
    {
        let b = tag[i];
        out.push(b);
        proof {
            assert(xor_stream(key.bytes@, plain@) + tag@.subrange(0, i as int + 1)
                =~= (xor_stream(key.bytes@, plain@) + tag@.subrange(0, i as int)).push(b));
        }
        i = i + 1;
    }
    proof {
        assert(tag@.subrange(0, tag@.len() as int) =~= tag@);
    }
    out
}

/// True exactly when the decrypted length equals the byte length the
/// package metadata declared for the file; a download only counts as
/// successful when it does.
pub fn size_matches(plain: &Vec<u8>, declared: u64) -> (r: bool)
    ensures
        r == (plain@.len() == declared as nat),
{
    plain.len() as u64 == declared
}

/// Decrypts `cipher` under `key`, verifying its integrity tag. Succeeds
/// exactly when the ciphertext is long enough and the recomputed tag
/// matches; every other input is refused with `Integrity`.
pub fn decrypt(cipher: &Vec<u8>, key: &DecryptionKey) -> (r: Result<Vec<u8>, SsError>)
    requires
        key.wf(),
    ensures
        match r {
            Ok(p) => spec_decrypt(key.bytes@, cipher@) == Some(p@),
            Err(e) => e == SsError::Integrity && spec_decrypt(key.bytes@, cipher@) is None,
        },
{
    let n = cipher.len();
    if n < TAG_LEN {
        return Err(SsError::Integrity);
    }
    let body_len = n - TAG_LEN;
    let mut plain: Vec<u8> = Vec::new();
    let mut j: usize = 0;
    while j < body_len
        invariant
            j <= body_len,
            body_len == cipher@.len() - TAG_LEN,
            key.wf(),
            plain@.len() == j,
            forall|t: int| 0 <= t < j ==> plain@[t] == cipher@[t] ^ ks_byte(key.bytes@, t),
        decreases body_len - j,
    {
        plain.push(cipher[j] ^ ks_byte_exec(key, j));
        j = j + 1;
    }
    proof {
        assert(plain@ =~= xor_stream(key.bytes@, cipher@.subrange(0, cipher@.len() - TAG_LEN)));
    }
    let tag = compute_tag(key, &plain);
    let mut i: usize = 0;
    let mut same = true;
    while i < TAG_LEN
        invariant
            i <= TAG_LEN,
            tag@.len() == TAG_LEN,
            body_len == cipher@.len() - TAG_LEN,
            TAG_LEN <= cipher@.len() <= usize::MAX,
            same <==> (forall|t: int| 0 <= t < i ==> tag@[t] == cipher@[body_len + t]),
        decreases TAG_LEN - i,
    {
        if tag[i] != cipher[body_len + i] {
            same = false;
            i = TAG_LEN;
        } else {
            i = i + 1;
        }
    }
    proof {
        let ctag = cipher@.subrange(cipher@.len() - TAG_LEN, cipher@.len() as int);
        if same {
            assert(tag@ =~= ctag);
        } else {
            assert(tag@ != ctag) by {
                if tag@ == ctag {
                    assert(forall|t: int| 0 <= t < TAG_LEN ==> tag@[t] == #[trigger] ctag[t]);
                }
            }
        }
    }
    if same {
        Ok(plain)
    } else {
        Err(SsError::Integrity)
    }
}

} // verus!
