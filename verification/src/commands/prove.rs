//! The one-shot command: prove one range and hand the proof to the verifier
//! binary.

use crate::config::ChainConfig;
use crate::error::ValidationError;
use crate::strategy::check_heights;
use crate::strategy::strategy_for;
use crate::strategy::HeightRange;
use crate::strategy::Strategy;
use vstd::prelude::*;
use vstd::string::StringExecFns;

verus! {

/// The path of the verifier binary where none is given.
pub const DEFAULT_GNARK_VERIFIER_BIN: &'static str = "gnark-verifier";

/// The options of the one-shot command.
#[derive(Clone, Debug, PartialEq, Eq)]
pub struct ProveCommand {
    pub trusted_height: u64,
    pub target_height: u64,
    /// The directory that holds the verifier's data.
    pub data_dir: String,
    /// The directory that the proof is written to.
    pub proof_dir: String,
    /// The path of the verifier binary.
    pub gnark_verifier_bin: String,
}

/// Why the one-shot command cannot start.
#[derive(Clone, Copy, Debug, PartialEq, Eq, Structural)]
pub enum CommandError {
    /// The data directory does not exist.
    MissingDataDir,
}

impl CommandError {
    /// The text that reports this error.
    pub fn message(&self) -> (text: &'static str)
        ensures
            text@ == "data_dir does not exist"@,
    {
        "data_dir does not exist"
    }
}

/// What is to be done about the directories before proving.
#[derive(Clone, Copy, Debug, PartialEq, Eq, Structural)]
pub enum DirectoryAction {
    /// Both directories are there.
    Proceed,
    /// The proof directory is to be created first.
    CreateProofDir,
}

/// The arguments of the verifier binary for the given directories.
pub open spec fn verifier_args_text(data_dir: Seq<char>, proof_dir: Seq<char>) -> Seq<Seq<char>> {
    seq!["prove"@, "--data"@, data_dir, "--proof"@, proof_dir]
}

impl ProveCommand {
    /// Decides about the directories, given which of them exist: without the
    /// data directory the command cannot run, and a missing proof directory
    /// is created.
    pub fn directories(&self, data_dir_exists: bool, proof_dir_exists: bool) -> (res: Result<
        DirectoryAction,
        CommandError,
    >)
        ensures
            !data_dir_exists ==> res == Err::<DirectoryAction, CommandError>(
                CommandError::MissingDataDir,
            ),
            data_dir_exists && !proof_dir_exists ==> res == Ok::<DirectoryAction, CommandError>(
                DirectoryAction::CreateProofDir,
            ),
            data_dir_exists && proof_dir_exists ==> res == Ok::<DirectoryAction, CommandError>(
                DirectoryAction::Proceed,
            ),
    {
        if !data_dir_exists {
            Err(CommandError::MissingDataDir)
        } else if !proof_dir_exists {
            Ok(DirectoryAction::CreateProofDir)
        } else {
            Ok(DirectoryAction::Proceed)
        }
    }

    /// Validates the heights and selects the strategy that proves them.
    pub fn plan(&self, config: &ChainConfig) -> (res: Result<(HeightRange, Strategy), ValidationError>)
        ensures
            match res {
                Ok((range, strategy)) => {
                    &&& check_heights(self.trusted_height, self.target_height, config.skip_max)
                        is Ok
                    &&& range.trusted() == self.trusted_height
                    &&& range.target() == self.target_height
                    &&& range.bound() == config.skip_max
                    &&& range.wf()
                    &&& strategy == strategy_for(self.trusted_height, self.target_height)
                },
                Err(e) => check_heights(self.trusted_height, self.target_height, config.skip_max)
                    == Err::<(), ValidationError>(e),
            },
    {
        match HeightRange::new(self.trusted_height, self.target_height, config.skip_max) {
            Ok(range) => {
                let strategy = range.strategy();
                Ok((range, strategy))
            },
            Err(e) => Err(e),
        }
    }

    /// The arguments that the verifier binary is started with.
    pub fn verifier_args(&self) -> (args: Vec<String>)
        ensures
            args.deep_view() == verifier_args_text(self.data_dir@, self.proof_dir@),
    {
        let mut args: Vec<String> = Vec::new();
        args.push(String::from_str("prove"));
        args.push(String::from_str("--data"));
        args.push(self.data_dir.clone());
        args.push(String::from_str("--proof"));
        args.push(self.proof_dir.clone());
        assert(args.deep_view() =~= verifier_args_text(self.data_dir@, self.proof_dir@));
        args
    }
}

} // verus!
