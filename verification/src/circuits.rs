//! What the two proving strategies hand on once a proof has been made.

pub mod skip;
pub mod step;

use vstd::prelude::*;

verus! {

/// A wrapped proof as the proving backend hands it over.
///
/// Each part is held as the bytes of its JSON text.  The library never looks
/// inside: it carries the parts from the backend to the verifier.
#[derive(Clone, Debug, PartialEq, Eq)]
pub struct WrappedOutput {
    /// The proof with its public inputs.
    pub proof: Vec<u8>,
    /// The circuit data common to prover and verifier.
    pub common_data: Vec<u8>,
    /// The circuit data that only the verifier needs.
    pub verifier_data: Vec<u8>,
}

} // verus!
