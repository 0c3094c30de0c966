//! What is sent to the verifier service, where it is sent, and how the
//! service's health is read from its answer.

use crate::circuits::WrappedOutput;
use crate::error::ServiceError;
use crate::hash::push_bytes;
use vstd::prelude::*;
use vstd::string::StringExecFns;
use vstd::string::StringSliceAdditionalSpecFns;

verus! {

/// The body of a proof submission: the proof with its public inputs and the
/// verifier's circuit data, each as the bytes of its JSON text.
#[derive(Clone, Debug, PartialEq, Eq)]
pub struct ProveRequest {
    pub proof_with_public_inputs: Vec<u8>,
    pub verifier_only_circuit_data: Vec<u8>,
}

/// The JSON object that carries a submission: two members, the proof first.
pub open spec fn prove_request_json(proof: Seq<u8>, verifier_data: Seq<u8>) -> Seq<u8> {
    "{\"proofWithPublicInputs\":".spec_bytes() + proof + ",\"verifierOnlyCircuitData\":".spec_bytes()
        + verifier_data + "}".spec_bytes()
}

/// A copy of `bytes`.
pub fn copy_bytes(bytes: &Vec<u8>) -> (copy: Vec<u8>)
    ensures
        copy@ == bytes@,
{
    let mut copy: Vec<u8> = Vec::new();
    push_bytes(&mut copy, bytes.as_slice());
    copy
}

impl ProveRequest {
    /// The submission for a wrapped proof: its proof and its verifier data.
    pub fn new(wrapped_output: &WrappedOutput) -> (req: ProveRequest)
        ensures
            req.proof_with_public_inputs@ == wrapped_output.proof@,
            req.verifier_only_circuit_data@ == wrapped_output.verifier_data@,
    {
        ProveRequest {
            proof_with_public_inputs: copy_bytes(&wrapped_output.proof),
            verifier_only_circuit_data: copy_bytes(&wrapped_output.verifier_data),
        }
    }

    /// The JSON text to post to the verifier service.
    pub fn to_json(&self) -> (body: Vec<u8>)
        ensures
            body@ == prove_request_json(
                self.proof_with_public_inputs@,
                self.verifier_only_circuit_data@,
            ),
    {
        let mut body: Vec<u8> = Vec::new();
        push_bytes(&mut body, "{\"proofWithPublicInputs\":".as_bytes());
        push_bytes(&mut body, self.proof_with_public_inputs.as_slice());
        push_bytes(&mut body, ",\"verifierOnlyCircuitData\":".as_bytes());
        push_bytes(&mut body, self.verifier_only_circuit_data.as_slice());
        push_bytes(&mut body, "}".as_bytes());
        body
    }
}

/// The URL that takes proof submissions at the verifier service at `address`.
pub fn prove_url(address: &str) -> (url: String)
    ensures
        url@ == address@ + "/prove"@,
{
    let mut url = String::from_str(address);
    url.append("/prove");
    url
}

/// The URL of the health probe of the verifier service at `address`.
pub fn health_url(address: &str) -> (url: String)
    ensures
        url@ == address@ + "/health"@,
{
    let mut url = String::from_str(address);
    url.append("/health");
    url
}

/// Whether the verifier service can be used.
#[derive(Clone, Copy, Debug, PartialEq, Eq, Structural)]
pub enum Health {
    Healthy,
    Unhealthy,
}

/// The health that a probe shows: healthy for a status from 200 to 299,
/// unhealthy for every other status and where no answer came at all.
pub open spec fn health_of(status: Option<u16>) -> Health {
    match status {
        Some(code) => if 200 <= code <= 299 {
            Health::Healthy
        } else {
            Health::Unhealthy
        },
        None => Health::Unhealthy,
    }
}

/// Reads the health of the verifier service from the outcome of a probe:
/// the HTTP status of the answer, or nothing after a transport error.
pub fn health(status: Option<u16>) -> (h: Health)
    ensures
        h == health_of(status),
{
    match status {
        Some(code) => if 200 <= code && code <= 299 {
            Health::Healthy
        } else {
            Health::Unhealthy
        },
        None => Health::Unhealthy,
    }
}

impl Health {
    /// The JSON text that reports this health.
    pub open spec fn report_text(self) -> Seq<char> {
        match self {
            Health::Healthy => "{\"gnark_verifier\":\"healthy\"}"@,
            Health::Unhealthy => "{\"gnark_verifier\":\"unhealthy\"}"@,
        }
    }

    /// The body of the service's answer to a health request.
    pub fn report(&self) -> (body: &'static str)
        ensures
            body@ == self.report_text(),
    {
        match self {
            Health::Healthy => "{\"gnark_verifier\":\"healthy\"}",
            Health::Unhealthy => "{\"gnark_verifier\":\"unhealthy\"}",
        }
    }
}

/// Whether `text` is one JSON value, as `serde_json` reads it.
pub uninterp spec fn is_json(text: Seq<u8>) -> bool;

/// Calls `serde_json::from_slice` for a `serde_json::Value`.
///
/// Trusted: whether the call succeeds depends on the bytes of `text` alone.
/// Nothing is claimed about which texts succeed.
#[verifier::external_body]
fn parses_as_json(text: &[u8]) -> (ok: bool)
    ensures
        ok == is_json(text@),
{
    serde_json::from_slice::<serde_json::Value>(text).is_ok()
}

/// What becomes of the verifier's answer, given whether it is JSON: it is
/// relayed as it came, or the submission has failed.
pub fn relay_answer(answer: Vec<u8>, well_formed: bool) -> (res: Result<Vec<u8>, ServiceError>)
    ensures
        well_formed ==> res == Ok::<Vec<u8>, ServiceError>(answer),
        !well_formed ==> res == Err::<Vec<u8>, ServiceError>(ServiceError::GatewaySubmission),
{
    if well_formed {
        Ok(answer)
    } else {
        Err(ServiceError::GatewaySubmission)
    }
}

/// Checks the verifier's answer to a submission.  An answer that is JSON is
/// relayed byte for byte; any other answer fails the submission.
pub fn check_answer(answer: Vec<u8>) -> (res: Result<Vec<u8>, ServiceError>)
    ensures
        is_json(answer@) ==> res == Ok::<Vec<u8>, ServiceError>(answer),
        !is_json(answer@) ==> res == Err::<Vec<u8>, ServiceError>(ServiceError::GatewaySubmission),
{
    let well_formed = parses_as_json(answer.as_slice());
    relay_answer(answer, well_formed)
}

} // verus!
