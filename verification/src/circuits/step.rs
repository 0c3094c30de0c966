//! The step strategy: a target header that directly follows a trusted one.

use crate::circuits::WrappedOutput;
use crate::hash::push_bytes;
use crate::hash::push_u64_be;
use crate::hash::rehash;
use crate::hash::sha256;
use crate::hash::sha256_digest;
use crate::circuits::skip::skip_preimage;
use crate::hash::lemma_u64_be_bytes_roundtrip;
use crate::hash::u64_be_bytes;
use crate::hash::Hash256;
use vstd::prelude::*;

verus! {

/// The bytes that the input hash of a step proof commits to: the previous
/// height as eight big-endian bytes, then the previous header hash.
pub open spec fn step_preimage(prev_height: u64, prev_header_hash: Seq<u8>) -> Seq<u8> {
    u64_be_bytes(prev_height) + prev_header_hash
}

/// The preimage has 40 bytes, and both of its parts can be read back from
/// it: two sets of inputs that differ anywhere have different preimages.
pub proof fn lemma_step_preimage_injective(
    prev_height: u64,
    prev_header_hash: Seq<u8>,
    other_prev_height: u64,
    other_prev_header_hash: Seq<u8>,
)
    requires
        prev_header_hash.len() == 32,
        other_prev_header_hash.len() == 32,
        step_preimage(prev_height, prev_header_hash) == step_preimage(
            other_prev_height,
            other_prev_header_hash,
        ),
    ensures
        step_preimage(prev_height, prev_header_hash).len() == 40,
        prev_height == other_prev_height,
        prev_header_hash == other_prev_header_hash,
{
    let p = step_preimage(prev_height, prev_header_hash);
    let q = step_preimage(other_prev_height, other_prev_header_hash);
    lemma_u64_be_bytes_roundtrip(prev_height);
    lemma_u64_be_bytes_roundtrip(other_prev_height);
    assert(p.subrange(0, 8) =~= u64_be_bytes(prev_height));
    assert(q.subrange(0, 8) =~= u64_be_bytes(other_prev_height));
    assert(p.subrange(8, 40) =~= prev_header_hash);
    assert(q.subrange(8, 40) =~= other_prev_header_hash);
}

/// The two strategies never commit to the same bytes: a step preimage and a
/// skip preimage differ in length.
pub proof fn lemma_step_and_skip_preimages_differ(
    prev_height: u64,
    prev_header_hash: Seq<u8>,
    trusted_height: u64,
    trusted_header: Seq<u8>,
    target_height: u64,
)
    requires
        prev_header_hash.len() == 32,
        trusted_header.len() == 32,
    ensures
        step_preimage(prev_height, prev_header_hash) != skip_preimage(
            trusted_height,
            trusted_header,
            target_height,
        ),
{
    assert(step_preimage(prev_height, prev_header_hash).len() == 40);
    assert(skip_preimage(trusted_height, trusted_header, target_height).len() == 48);
}

/// The commitment to the inputs of a step proof.
pub fn step_input_hash(prev_height: u64, prev_header_hash: &Hash256) -> (out: Hash256)
    ensures
        out@ == sha256(step_preimage(prev_height, prev_header_hash@)),
{
    let mut preimage: Vec<u8> = Vec::new();
    push_u64_be(&mut preimage, prev_height);
    push_bytes(&mut preimage, prev_header_hash.as_slice());
    assert(preimage@ == step_preimage(prev_height, prev_header_hash@));
    sha256_digest(preimage.as_slice())
}

/// The commitment to the output of a step proof: the digest of the next
/// header hash.
pub fn step_output_hash(next_header: &Hash256) -> (out: Hash256)
    ensures
        out@ == sha256(next_header@),
{
    sha256_digest(next_header.as_slice())
}

/// A step proof with the commitments that bind it to its inputs and output.
#[derive(Clone, Debug, PartialEq, Eq)]
pub struct WrappedStepCircuitOutput {
    pub input_hash: Hash256,
    pub output_hash: Hash256,
    pub next_header: Hash256,
    pub wrapped_proof: WrappedOutput,
}

impl WrappedStepCircuitOutput {
    /// The output belongs to a step proof from `prev_header_hash` at
    /// `prev_height`.
    pub open spec fn binds(self, prev_height: u64, prev_header_hash: Seq<u8>) -> bool {
        &&& self.input_hash@ == sha256(step_preimage(prev_height, prev_header_hash))
        &&& self.output_hash@ == sha256(self.next_header@)
    }

    /// Packages what the proving backend returned for the step from
    /// `prev_header_hash` at `prev_height`: the header it arrived at and the
    /// wrapped proof.
    pub fn new(
        prev_height: u64,
        prev_header_hash: &Hash256,
        next_header: Hash256,
        wrapped_proof: WrappedOutput,
    ) -> (output: WrappedStepCircuitOutput)
        ensures
            output.binds(prev_height, prev_header_hash@),
            output.next_header == next_header,
            output.wrapped_proof == wrapped_proof,
    {
        let input_hash = step_input_hash(prev_height, prev_header_hash);
        let output_hash = step_output_hash(&next_header);
        WrappedStepCircuitOutput { input_hash, output_hash, next_header, wrapped_proof }
    }

    /// The input hash, reduced by hashing it once more.
    pub fn truncated_input_hash(&self) -> (out: Hash256)
        ensures
            out@ == sha256(self.input_hash@),
    {
        rehash(&self.input_hash)
    }

    /// The output hash, reduced by hashing it once more.
    pub fn truncated_output_hash(&self) -> (out: Hash256)
        ensures
            out@ == sha256(self.output_hash@),
    {
        rehash(&self.output_hash)
    }
}

} // verus!
