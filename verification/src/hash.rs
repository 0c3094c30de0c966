//! SHA-256 commitments over fixed-size byte strings, and their reduction to
//! values of fewer than 256 bits.

use sha2::Digest;
use sha2::Sha256;
use vstd::arithmetic::div_mod::lemma_fundamental_div_mod_converse;
use vstd::arithmetic::power2::lemma2_to64;
use vstd::arithmetic::power2::lemma_pow2_adds;
use vstd::arithmetic::power2::pow2;
use vstd::prelude::*;

verus! {

/// A 32-byte digest.
pub type Hash256 = [u8; 32];

/// The SHA-256 digest of `data`, as the `sha2` crate computes it.
pub uninterp spec fn sha256(data: Seq<u8>) -> Seq<u8>;

/// Calls `sha2::Sha256::digest` (the one-shot form of `Digest`).
///
/// Trusted: the 32 bytes returned are the SHA-256 digest of `data`, a
/// function of the bytes of `data` alone.
#[verifier::external_body]
pub(crate) fn sha256_digest(data: &[u8]) -> (out: Hash256)
    ensures
        out@ == sha256(data@),
{
    Sha256::digest(data).into()
}

/// The eight bytes of `x`, most significant first.
pub open spec fn u64_be_bytes(x: u64) -> Seq<u8> {
    seq![
        ((x / 0x100_0000_0000_0000) % 0x100) as u8,
        ((x / 0x1_0000_0000_0000) % 0x100) as u8,
        ((x / 0x100_0000_0000) % 0x100) as u8,
        ((x / 0x1_0000_0000) % 0x100) as u8,
        ((x / 0x100_0000) % 0x100) as u8,
        ((x / 0x1_0000) % 0x100) as u8,
        ((x / 0x100) % 0x100) as u8,
        (x % 0x100) as u8,
    ]
}

/// The number that `bytes` encode, most significant byte first.
pub open spec fn be_value(bytes: Seq<u8>) -> nat
    decreases bytes.len(),
{
    if bytes.len() == 0 {
        0
    } else {
        be_value(bytes.drop_last()) * 256 + bytes.last() as nat
    }
}

/// The encoding has eight bytes and can be read back: no two numbers share
/// an encoding.
pub proof fn lemma_u64_be_bytes_roundtrip(x: u64)
    ensures
        u64_be_bytes(x).len() == 8,
        be_value(u64_be_bytes(x)) == x,
{
    assert(x == ((x / 0x100_0000_0000_0000) % 0x100) * 0x100_0000_0000_0000 + ((x
        / 0x1_0000_0000_0000) % 0x100) * 0x1_0000_0000_0000 + ((x / 0x100_0000_0000) % 0x100)
        * 0x100_0000_0000 + ((x / 0x1_0000_0000) % 0x100) * 0x1_0000_0000 + ((x / 0x100_0000)
        % 0x100) * 0x100_0000 + ((x / 0x1_0000) % 0x100) * 0x1_0000 + ((x / 0x100) % 0x100) * 0x100
        + (x % 0x100)) by (bit_vector);
    reveal_with_fuel(be_value, 9);
}

/// Bytes encode a number below `256^n`, where `n` is their count.
pub proof fn lemma_be_value_bound(bytes: Seq<u8>)
    ensures
        be_value(bytes) < pow2(8 * bytes.len()),
    decreases bytes.len(),
{
    lemma2_to64();
    if bytes.len() > 0 {
        let n = bytes.len();
        lemma_be_value_bound(bytes.drop_last());
        lemma_pow2_adds((8 * (n - 1)) as nat, 8);
        assert(pow2(8 * n) == pow2((8 * (n - 1)) as nat) * 256);
    }
}

/// The first byte weighs `256^(n-1)`: the number that bytes encode is their
/// first byte at that weight plus what the other bytes encode.
pub proof fn lemma_be_value_head(bytes: Seq<u8>)
    requires
        bytes.len() > 0,
    ensures
        be_value(bytes) == bytes[0] * pow2((8 * (bytes.len() - 1)) as nat) + be_value(
            bytes.drop_first(),
        ),
    decreases bytes.len(),
{
    lemma2_to64();
    let n = bytes.len();
    if n == 1 {
        assert(be_value(bytes.drop_last()) == 0);
        assert(be_value(bytes.drop_first()) == 0);
        assert(bytes[0] * pow2((8 * (n - 1)) as nat) == bytes[0]) by (nonlinear_arith)
            requires
                pow2((8 * (n - 1)) as nat) == 1,
        ;
    } else {
        let front = bytes.drop_last();
        let tail = bytes.drop_first();
        lemma_be_value_head(front);
        assert(front.drop_first() =~= tail.drop_last());
        let w = pow2((8 * (n - 2)) as nat);
        let top = pow2((8 * (n - 1)) as nat);
        lemma_pow2_adds((8 * (n - 2)) as nat, 8);
        let head = bytes[0] as nat;
        let mid = be_value(tail.drop_last());
        assert((head * w + mid) * 256 == head * top + mid * 256) by (nonlinear_arith)
            requires
                top == w * 256,
        ;
    }
}

/// Appends the big-endian encoding of `x` to `buf`.
pub fn push_u64_be(buf: &mut Vec<u8>, x: u64)
    ensures
        final(buf)@ == old(buf)@ + u64_be_bytes(x),
{
    buf.push(((x / 0x100_0000_0000_0000) % 0x100) as u8);
    buf.push(((x / 0x1_0000_0000_0000) % 0x100) as u8);
    buf.push(((x / 0x100_0000_0000) % 0x100) as u8);
    buf.push(((x / 0x1_0000_0000) % 0x100) as u8);
    buf.push(((x / 0x100_0000) % 0x100) as u8);
    buf.push(((x / 0x1_0000) % 0x100) as u8);
    buf.push(((x / 0x100) % 0x100) as u8);
    buf.push((x % 0x100) as u8);
}

/// Appends `bytes` to `buf`.
pub fn push_bytes(buf: &mut Vec<u8>, bytes: &[u8])
    ensures
        final(buf)@ == old(buf)@ + bytes@,
{
    let mut i: usize = 0;
    while i < bytes.len()
        invariant
            i <= bytes@.len(),
            buf@ == old(buf)@ + bytes@.subrange(0, i as int),
        decreases bytes@.len() - i,
    {
        buf.push(bytes[i]);
        i += 1;
    }
    assert(bytes@.subrange(0, i as int) == bytes@);
}

/// `hash` with the three most significant bits of its first byte cleared.
pub open spec fn masked(hash: Seq<u8>) -> Seq<u8> {
    hash.update(0, hash[0] & 0x1f)
}

/// Masking clears the three most significant bits and changes no other bit;
/// masking twice is masking once.
pub proof fn lemma_masked_bits(hash: Seq<u8>)
    requires
        hash.len() == 32,
    ensures
        masked(hash).len() == 32,
        masked(hash)[0] & 0xe0 == 0,
        masked(hash)[0] & 0x1f == hash[0] & 0x1f,
        forall|i: int| 1 <= i < 32 ==> masked(hash)[i] == hash[i],
        masked(masked(hash)) == masked(hash),
{
    let b: u8 = hash[0];
    assert((b & 0x1f) & 0xe0 == 0) by (bit_vector);
    assert((b & 0x1f) & 0x1f == b & 0x1f) by (bit_vector);
    assert(masked(masked(hash)) =~= masked(hash));
}

/// Read as a number, a masked digest is the digest modulo `2^253`: it is
/// below `2^253`, and its low 253 bits are those of the digest.
pub proof fn lemma_masked_value(hash: Seq<u8>)
    requires
        hash.len() == 32,
    ensures
        be_value(masked(hash)) < pow2(253),
        be_value(masked(hash)) == be_value(hash) % pow2(253),
{
    lemma2_to64();
    let b: u8 = hash[0];
    let low: u8 = b & 0x1f;
    assert(low == b % 32) by (bit_vector)
        requires
            low == b & 0x1f,
    ;
    let rest = hash.drop_first();
    assert(masked(hash).drop_first() =~= rest);
    lemma_be_value_head(hash);
    lemma_be_value_head(masked(hash));
    lemma_be_value_bound(rest);
    let w = pow2(248);
    lemma_pow2_adds(248, 5);
    assert(pow2(253) == w * 32);
    let high = (b / 32) as nat;
    let kept = (low as nat) * w + be_value(rest);
    assert(be_value(masked(hash)) == kept);
    assert(kept < w * 32) by (nonlinear_arith)
        requires
            kept == (low as nat) * w + be_value(rest),
            low < 32,
            be_value(rest) < w,
    ;
    assert(be_value(hash) == (w * 32) * high + kept) by (nonlinear_arith)
        requires
            be_value(hash) == (b as nat) * w + be_value(rest),
            kept == (low as nat) * w + be_value(rest),
            b == 32 * high + low,
    ;
    lemma_fundamental_div_mod_converse(
        be_value(hash) as int,
        pow2(253) as int,
        high as int,
        kept as int,
    );
}

/// Reduces a digest to 253 bits by clearing its three most significant bits.
///
/// The three bits come out as zero, and the other 253 bits are those of
/// `hash`.
pub fn mask_top_bits(hash: &Hash256) -> (out: Hash256)
    ensures
        out@ == masked(hash@),
        out@[0] & 0xe0 == 0,
        out@[0] & 0x1f == hash@[0] & 0x1f,
        forall|i: int| 1 <= i < 32 ==> out@[i] == hash@[i],
{
    proof {
        lemma_masked_bits(hash@);
    }
    let mut out = *hash;
    out[0] = out[0] & 0x1f;
    out
}

/// Reduces a digest by hashing it once more.
pub fn rehash(hash: &Hash256) -> (out: Hash256)
    ensures
        out@ == sha256(hash@),
{
    sha256_digest(hash.as_slice())
}

} // verus!
