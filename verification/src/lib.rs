//! Proof orchestration for a Tendermint light-client bridge.
//!
//! The crate selects a proving strategy from a height range, plans the
//! retrieval of the trusted header hash, binds proof inputs and outputs to
//! SHA-256 commitments that fit the proving system's scalar field, and drives
//! each proof request through its phases.  Proving itself, and all network
//! traffic, happen outside: the functions here decide, the caller performs.

pub mod circuits;
pub mod commands;
pub mod config;
pub mod error;
pub mod gnark_verifier;
pub mod hash;
pub mod strategy;
pub mod tendermint_client;
