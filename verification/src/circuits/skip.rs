//! The skip strategy: a target header several heights above a trusted one.

use crate::circuits::WrappedOutput;
use crate::hash::mask_top_bits;
use crate::hash::masked;
use crate::hash::push_bytes;
use crate::hash::push_u64_be;
use crate::hash::sha256;
use crate::hash::sha256_digest;
use crate::hash::lemma_u64_be_bytes_roundtrip;
use crate::hash::u64_be_bytes;
use crate::hash::Hash256;
use vstd::prelude::*;

verus! {

/// The bytes that the input hash of a skip proof commits to: the trusted
/// height, the trusted header hash and the target height, in this order, the
/// heights as eight big-endian bytes each.
pub open spec fn skip_preimage(
    trusted_height: u64,
    trusted_header: Seq<u8>,
    target_height: u64,
) -> Seq<u8> {
    u64_be_bytes(trusted_height) + trusted_header + u64_be_bytes(target_height)
}

/// The preimage has 48 bytes, and each of its three parts can be read back
/// from it: two sets of inputs that differ anywhere have different
/// preimages.
pub proof fn lemma_skip_preimage_injective(
    trusted_height: u64,
    trusted_header: Seq<u8>,
    target_height: u64,
    other_trusted_height: u64,
    other_trusted_header: Seq<u8>,
    other_target_height: u64,
)
    requires
        trusted_header.len() == 32,
        other_trusted_header.len() == 32,
        skip_preimage(trusted_height, trusted_header, target_height) == skip_preimage(
            other_trusted_height,
            other_trusted_header,
            other_target_height,
        ),
    ensures
        skip_preimage(trusted_height, trusted_header, target_height).len() == 48,
        trusted_height == other_trusted_height,
        trusted_header == other_trusted_header,
        target_height == other_target_height,
{
    let p = skip_preimage(trusted_height, trusted_header, target_height);
    let q = skip_preimage(other_trusted_height, other_trusted_header, other_target_height);
    lemma_u64_be_bytes_roundtrip(trusted_height);
    lemma_u64_be_bytes_roundtrip(target_height);
    lemma_u64_be_bytes_roundtrip(other_trusted_height);
    lemma_u64_be_bytes_roundtrip(other_target_height);
    assert(p.subrange(0, 8) =~= u64_be_bytes(trusted_height));
    assert(q.subrange(0, 8) =~= u64_be_bytes(other_trusted_height));
    assert(p.subrange(8, 40) =~= trusted_header);
    assert(q.subrange(8, 40) =~= other_trusted_header);
    assert(p.subrange(40, 48) =~= u64_be_bytes(target_height));
    assert(q.subrange(40, 48) =~= u64_be_bytes(other_target_height));
}

/// The input hash is a function of the inputs: the same trusted height,
/// trusted header and target height commit to the same bytes, and so to the
/// same digest, at every call.
pub proof fn lemma_skip_input_hash_deterministic(
    trusted_height: u64,
    trusted_header: Seq<u8>,
    target_height: u64,
    other_trusted_height: u64,
    other_trusted_header: Seq<u8>,
    other_target_height: u64,
)
    requires
        trusted_height == other_trusted_height,
        trusted_header == other_trusted_header,
        target_height == other_target_height,
    ensures
        sha256(skip_preimage(trusted_height, trusted_header, target_height)) == sha256(
            skip_preimage(other_trusted_height, other_trusted_header, other_target_height),
        ),
{
}

/// The commitment to the inputs of a skip proof.
pub fn skip_input_hash(trusted_height: u64, trusted_header: &Hash256, target_height: u64) -> (out:
    Hash256)
    ensures
        out@ == sha256(skip_preimage(trusted_height, trusted_header@, target_height)),
{
    let mut preimage: Vec<u8> = Vec::new();
    push_u64_be(&mut preimage, trusted_height);
    push_bytes(&mut preimage, trusted_header.as_slice());
    push_u64_be(&mut preimage, target_height);
    assert(preimage@ == skip_preimage(trusted_height, trusted_header@, target_height));
    sha256_digest(preimage.as_slice())
}

/// The commitment to the output of a skip proof: the digest of the target
/// header hash.
pub fn skip_output_hash(target_header: &Hash256) -> (out: Hash256)
    ensures
        out@ == sha256(target_header@),
{
    sha256_digest(target_header.as_slice())
}

/// A skip proof with the commitments that bind it to its inputs and output.
#[derive(Clone, Debug, PartialEq, Eq)]
pub struct WrappedSkipCircuitOutput {
    pub input_hash: Hash256,
    pub output_hash: Hash256,
    pub target_header: Hash256,
    pub wrapped_proof: WrappedOutput,
}

impl WrappedSkipCircuitOutput {
    /// The output belongs to a skip proof from `trusted_header` at
    /// `trusted_height` to `target_height`.
    pub open spec fn binds(
        self,
        trusted_header: Seq<u8>,
        trusted_height: u64,
        target_height: u64,
    ) -> bool {
        &&& self.input_hash@ == sha256(skip_preimage(trusted_height, trusted_header, target_height))
        &&& self.output_hash@ == sha256(self.target_header@)
    }

    /// Packages what the proving backend returned for a skip from
    /// `trusted_header` at `trusted_height` to `target_height`: the target
    /// header it arrived at and the wrapped proof.
    pub fn new(
        trusted_header: &Hash256,
        trusted_height: u64,
        target_height: u64,
        target_header: Hash256,
        wrapped_proof: WrappedOutput,
    ) -> (output: WrappedSkipCircuitOutput)
        ensures
            output.binds(trusted_header@, trusted_height, target_height),
            output.target_header == target_header,
            output.wrapped_proof == wrapped_proof,
    {
        let input_hash = skip_input_hash(trusted_height, trusted_header, target_height);
        let output_hash = skip_output_hash(&target_header);
        WrappedSkipCircuitOutput { input_hash, output_hash, target_header, wrapped_proof }
    }

    /// The input hash, reduced to 253 bits by clearing its top three bits.
    pub fn truncated_input_hash(&self) -> (out: Hash256)
        ensures
            out@ == masked(self.input_hash@),
            out@[0] & 0xe0 == 0,
            out@[0] & 0x1f == self.input_hash@[0] & 0x1f,
            forall|i: int| 1 <= i < 32 ==> out@[i] == self.input_hash@[i],
    {
        mask_top_bits(&self.input_hash)
    }

    /// The output hash, reduced to 253 bits by clearing its top three bits.
    pub fn truncated_output_hash(&self) -> (out: Hash256)
        ensures
            out@ == masked(self.output_hash@),
            out@[0] & 0xe0 == 0,
            out@[0] & 0x1f == self.output_hash@[0] & 0x1f,
            forall|i: int| 1 <= i < 32 ==> out@[i] == self.output_hash@[i],
    {
        mask_top_bits(&self.output_hash)
    }
}

} // verus!
