//! The constants of a deployment, fixed when the process starts.

use vstd::prelude::*;

verus! {

/// Length in bytes of the chain identifier that is used when none is configured.
pub const DEFAULT_CHAIN_ID_SIZE_BYTES: usize = 4;

/// Largest validator set that is supported when no other size is configured.
pub const DEFAULT_MAX_VALIDATOR_SET_SIZE: usize = 4;

/// What the proving circuits of one deployment were built for.
#[derive(Clone, Copy, Debug, PartialEq, Eq, Structural)]
pub struct ChainConfig {
    /// Length in bytes of the chain identifier.
    pub chain_id_size_bytes: usize,
    /// Largest validator set the circuits can take.
    pub max_validator_set_size: usize,
    /// Largest difference between target and trusted height that one proof
    /// may span.
    pub skip_max: u64,
}

impl ChainConfig {
    /// A configuration with the given skip bound and the default chain
    /// identifier length and validator set size.
    pub fn with_skip_max(skip_max: u64) -> (config: ChainConfig)
        ensures
            config == (ChainConfig {
                chain_id_size_bytes: DEFAULT_CHAIN_ID_SIZE_BYTES,
                max_validator_set_size: DEFAULT_MAX_VALIDATOR_SET_SIZE,
                skip_max,
            }),
    {
        ChainConfig {
            chain_id_size_bytes: DEFAULT_CHAIN_ID_SIZE_BYTES,
            max_validator_set_size: DEFAULT_MAX_VALIDATOR_SET_SIZE,
            skip_max,
        }
    }
}

} // verus!
