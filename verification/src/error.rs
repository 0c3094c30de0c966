//! The failures a proof request can end in.

use vstd::prelude::*;

verus! {

/// A request parameter that is malformed or out of range.
#[derive(Clone, Copy, Debug, PartialEq, Eq, Structural)]
pub enum ValidationError {
    /// The target height is not above the trusted height.
    TargetNotAboveTrusted,
    /// The target lies further above the trusted height than may be skipped.
    RangeTooLarge,
    /// The consensus RPC base URL is empty.
    EmptyUrl,
}

/// Why a proof request failed.
///
/// Every failure is final for the request it belongs to: nothing is retried
/// above the layer that reports it, and nothing is turned into a success.
#[derive(Clone, Copy, Debug, PartialEq, Eq, Structural)]
pub enum ServiceError {
    /// The request's parameters were rejected.
    Validation(ValidationError),
    /// The step strategy was selected in a deployment that lacks it.
    StepNotEnabled,
    /// The consensus RPC could not be reached within the retry budget.
    TransientFetch,
    /// The consensus RPC answered, but the header has no parent hash.
    DataIntegrity,
    /// The proving backend failed to build, prove or wrap.
    Proving,
    /// The verifier service could not be reached, or its answer is no JSON.
    GatewaySubmission,
    /// An unexpected fault was caught while the request was handled.
    Fault,
}

/// The HTTP status that reports `error`: 400 for a rejected request, 500 for
/// every other failure.
pub open spec fn status_of(error: ServiceError) -> u16 {
    match error {
        ServiceError::Validation(_) => 400,
        _ => 500,
    }
}

impl ValidationError {
    /// The text that reports this error.
    pub open spec fn message_text(self) -> Seq<char> {
        match self {
            ValidationError::TargetNotAboveTrusted =>
                "target_height must be greater than trusted_height"@,
            ValidationError::RangeTooLarge =>
                "target_height - trusted_height must be less than or equal to SKIP_MAX"@,
            ValidationError::EmptyUrl => "Tendermint RPC url must not be empty"@,
        }
    }

    pub fn message(&self) -> (text: &'static str)
        ensures
            text@ == self.message_text(),
    {
        match self {
            ValidationError::TargetNotAboveTrusted =>
                "target_height must be greater than trusted_height",
            ValidationError::RangeTooLarge =>
                "target_height - trusted_height must be less than or equal to SKIP_MAX",
            ValidationError::EmptyUrl => "Tendermint RPC url must not be empty",
        }
    }
}

impl ServiceError {
    /// The text that reports this error.
    pub open spec fn message_text(self) -> Seq<char> {
        match self {
            ServiceError::Validation(e) => e.message_text(),
            ServiceError::StepNotEnabled => "step circuit is not enabled"@,
            ServiceError::TransientFetch => "Failed to fetch data from Tendermint RPC"@,
            ServiceError::DataIntegrity => "Failed to fetch block hash from Tendermint RPC"@,
            ServiceError::Proving => "Failed to generate proof"@,
            ServiceError::GatewaySubmission => "Failed to submit proof to gnark verifier"@,
            ServiceError::Fault => "Unhandled internal error"@,
        }
    }

    pub fn message(&self) -> (text: &'static str)
        ensures
            text@ == self.message_text(),
    {
        match self {
            ServiceError::Validation(e) => e.message(),
            ServiceError::StepNotEnabled => "step circuit is not enabled",
            ServiceError::TransientFetch => "Failed to fetch data from Tendermint RPC",
            ServiceError::DataIntegrity => "Failed to fetch block hash from Tendermint RPC",
            ServiceError::Proving => "Failed to generate proof",
            ServiceError::GatewaySubmission => "Failed to submit proof to gnark verifier",
            ServiceError::Fault => "Unhandled internal error",
        }
    }

    /// The HTTP status that reports this error.
    pub fn status(&self) -> (code: u16)
        ensures
            code == status_of(*self),
    {
        match self {
            ServiceError::Validation(_) => 400,
            _ => 500,
        }
    }
}

} // verus!
