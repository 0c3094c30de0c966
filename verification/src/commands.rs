//! The two ways the prover is run: once from the command line, or as a
//! service that answers proof requests.

pub mod prove;
pub mod service;

use crate::commands::prove::ProveCommand;
use crate::commands::service::ServiceCommand;
use vstd::prelude::*;

verus! {

/// What the program was asked to do.
#[derive(Clone, Debug, PartialEq, Eq)]
pub enum Command {
    /// Prove one range and hand the proof to the verifier binary.
    Prove(ProveCommand),
    /// Serve proof requests over HTTP.
    Service(ServiceCommand),
}

/// The parsed command line.
#[derive(Clone, Debug, PartialEq, Eq)]
pub struct Cli {
    pub command: Command,
}

} // verus!
