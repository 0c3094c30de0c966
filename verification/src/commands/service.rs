//! The request service: the phases a proof request goes through, and what
//! the service does at each of them.

use crate::circuits::skip::skip_preimage;
use crate::circuits::skip::WrappedSkipCircuitOutput;
use crate::circuits::step::step_preimage;
use crate::circuits::step::WrappedStepCircuitOutput;
use crate::circuits::WrappedOutput;
use crate::config::ChainConfig;
use crate::error::ServiceError;
use crate::error::ValidationError;
use crate::gnark_verifier::check_answer;
use crate::gnark_verifier::copy_bytes;
use crate::gnark_verifier::is_json;
use crate::gnark_verifier::prove_request_json;
use crate::gnark_verifier::prove_url;
use crate::gnark_verifier::ProveRequest;
use crate::hash::sha256;
use crate::hash::Hash256;
use crate::strategy::check_heights;
use crate::strategy::select;
use crate::strategy::selection;
use crate::strategy::strategy_for;
use crate::strategy::HeightRange;
use crate::strategy::Strategy;
use crate::tendermint_client::header_route_text;
use crate::tendermint_client::request_url_text;
use crate::tendermint_client::trusted_block_hash_url;
use crate::tendermint_client::HeaderResponse;
use vstd::prelude::*;
use vstd::string::StringExecFns;

verus! {

/// The options of the service.
#[derive(Clone, Debug, PartialEq, Eq)]
pub struct ServiceCommand {
    /// The address to listen on.
    pub addr: String,
    /// The address of the verifier service.
    pub gnark_verifier_address: String,
}

impl ServiceCommand {
    /// The options that hold where none are given on the command line.
    pub fn with_defaults() -> (command: ServiceCommand)
        ensures
            command.addr@ == "0.0.0.0:3000"@,
            command.gnark_verifier_address@ == "http://127.0.0.1:3030"@,
    {
        ServiceCommand {
            addr: String::from_str("0.0.0.0:3000"),
            gnark_verifier_address: String::from_str("http://127.0.0.1:3030"),
        }
    }

    /// What the requests of this service share: the consensus RPC at
    /// `tm_url`, the verifier service of these options, and the circuits the
    /// deployment has.
    pub fn state(&self, tm_url: String, step_enabled: bool, config: ChainConfig) -> (state:
        ServiceState)
        ensures
            state.tm_url == tm_url,
            state.gnark_verifier_address@ == self.gnark_verifier_address@,
            state.step_enabled == step_enabled,
            state.config == config,
    {
        ServiceState {
            tm_url,
            gnark_verifier_address: self.gnark_verifier_address.clone(),
            step_enabled,
            config,
        }
    }
}

/// The parameters of a proof request.
#[derive(Clone, Copy, Debug, PartialEq, Eq, Structural)]
pub struct ProveArgs {
    pub trusted_height: u64,
    pub target_height: u64,
}

impl ProveArgs {
    /// Checks the heights against the deployment's skip bound: the target
    /// must lie above the trusted height, by no more than the bound.
    pub fn validate(&self, config: &ChainConfig) -> (res: Result<(), ValidationError>)
        ensures
            res == check_heights(self.trusted_height, self.target_height, config.skip_max),
    {
        if self.target_height <= self.trusted_height {
            Err(ValidationError::TargetNotAboveTrusted)
        } else if self.target_height - self.trusted_height > config.skip_max {
            Err(ValidationError::RangeTooLarge)
        } else {
            Ok(())
        }
    }
}

/// What every request of one deployment shares.  Nothing in it changes once
/// the service has started.
#[derive(Clone, Debug, PartialEq, Eq)]
pub struct ServiceState {
    /// The base URL of the consensus RPC.
    pub tm_url: String,
    /// The address of the verifier service.
    pub gnark_verifier_address: String,
    /// Whether this deployment has a step circuit.
    pub step_enabled: bool,
    /// The constants the circuits were built for.
    pub config: ChainConfig,
}

/// The paths the service answers.
#[derive(Clone, Copy, Debug, PartialEq, Eq, Structural)]
pub enum Route {
    Health,
    Prove,
}

/// How many requests of a route may be handled at once: one proof at a
/// time, and health probes without limit.
pub open spec fn limit_of(route: Route) -> Option<usize> {
    match route {
        Route::Health => None,
        Route::Prove => Some(1),
    }
}

impl Route {
    /// The path of this route.
    pub fn path(&self) -> (path: &'static str)
        ensures
            path@ == match *self {
                Route::Health => "/health"@,
                Route::Prove => "/prove"@,
            },
    {
        match self {
            Route::Health => "/health",
            Route::Prove => "/prove",
        }
    }

    /// The number of requests of this route that may be handled at once, or
    /// nothing where the route is not limited.
    pub fn concurrency_limit(&self) -> (limit: Option<usize>)
        ensures
            limit == limit_of(*self),
    {
        match self {
            Route::Health => None,
            Route::Prove => Some(1),
        }
    }
}

/// Where a proof request stands.
#[derive(Clone, Copy, Debug, PartialEq, Eq, Structural)]
pub enum Phase {
    Received,
    Validated,
    Fetching,
    Proving,
    Submitting,
    Completed,
    Failed,
}

impl Phase {
    /// The position of the phase in the order a request goes through.
    pub open spec fn rank(self) -> nat {
        match self {
            Phase::Received => 0,
            Phase::Validated => 1,
            Phase::Fetching => 2,
            Phase::Proving => 3,
            Phase::Submitting => 4,
            Phase::Completed => 5,
            Phase::Failed => 5,
        }
    }

    /// The request is over.
    pub open spec fn is_terminal(self) -> bool {
        self == Phase::Completed || self == Phase::Failed
    }
}

/// What the proving backend hands back for one proof.
#[derive(Clone, Debug, PartialEq, Eq)]
pub struct ProofArtifacts {
    /// The hash of the header that the proof arrives at.
    pub header: Hash256,
    /// The wrapped proof.
    pub wrapped_proof: WrappedOutput,
}

/// A finished proof, ready for the verifier.
#[derive(Clone, Debug, PartialEq, Eq)]
pub enum ProofBundle {
    Step(WrappedStepCircuitOutput),
    Skip(WrappedSkipCircuitOutput),
}

impl ProofBundle {
    /// The wrapped proof inside the bundle.
    pub open spec fn wrapped(self) -> WrappedOutput {
        match self {
            ProofBundle::Step(output) => output.wrapped_proof,
            ProofBundle::Skip(output) => output.wrapped_proof,
        }
    }

    /// The bundle is the one for `artifacts`, made by `strategy` from the
    /// block with hash `trusted_hash` at the lower end of the given heights.
    pub open spec fn packages(
        self,
        strategy: Strategy,
        trusted_height: u64,
        trusted_hash: Hash256,
        target_height: u64,
        artifacts: ProofArtifacts,
    ) -> bool {
        match strategy {
            Strategy::Step => {
                &&& self matches ProofBundle::Step(output)
                &&& output.input_hash@ == sha256(step_preimage(trusted_height, trusted_hash@))
                &&& output.output_hash@ == sha256(artifacts.header@)
                &&& output.next_header == artifacts.header
                &&& output.wrapped_proof == artifacts.wrapped_proof
            },
            Strategy::Skip => {
                &&& self matches ProofBundle::Skip(output)
                &&& output.input_hash@ == sha256(
                    skip_preimage(trusted_height, trusted_hash@, target_height),
                )
                &&& output.output_hash@ == sha256(artifacts.header@)
                &&& output.target_header == artifacts.header
                &&& output.wrapped_proof == artifacts.wrapped_proof
            },
        }
    }

    /// Packages the artifacts of a proof with the commitments of the
    /// strategy that made it.
    pub fn new(
        strategy: Strategy,
        trusted_height: u64,
        trusted_hash: &Hash256,
        target_height: u64,
        artifacts: ProofArtifacts,
    ) -> (bundle: ProofBundle)
        ensures
            bundle.packages(strategy, trusted_height, *trusted_hash, target_height, artifacts),
            bundle.wrapped() == artifacts.wrapped_proof,
    {
        match strategy {
            Strategy::Step => ProofBundle::Step(
                WrappedStepCircuitOutput::new(
                    trusted_height,
                    trusted_hash,
                    artifacts.header,
                    artifacts.wrapped_proof,
                ),
            ),
            Strategy::Skip => ProofBundle::Skip(
                WrappedSkipCircuitOutput::new(
                    trusted_hash,
                    trusted_height,
                    target_height,
                    artifacts.header,
                    artifacts.wrapped_proof,
                ),
            ),
        }
    }

    /// The submission that carries this bundle to the verifier.
    pub fn request(&self) -> (req: ProveRequest)
        ensures
            req.proof_with_public_inputs@ == self.wrapped().proof@,
            req.verifier_only_circuit_data@ == self.wrapped().verifier_data@,
    {
        match self {
            ProofBundle::Step(output) => ProveRequest::new(&output.wrapped_proof),
            ProofBundle::Skip(output) => ProveRequest::new(&output.wrapped_proof),
        }
    }
}

/// The answer of the service to a proof request.
#[derive(Clone, Debug, PartialEq, Eq)]
pub enum Response {
    /// The verifier's answer, relayed as it came.
    Success { body: Vec<u8> },
    /// The request failed.
    Failure { error: ServiceError },
}

impl Response {
    /// The HTTP status of the answer: 200 for a success, and the status of
    /// the error for a failure.
    pub open spec fn status_code(self) -> u16 {
        match self {
            Response::Success { .. } => 200,
            Response::Failure { error } => crate::error::status_of(error),
        }
    }

    pub fn status(&self) -> (code: u16)
        ensures
            code == self.status_code(),
    {
        match self {
            Response::Success { .. } => 200,
            Response::Failure { error } => error.status(),
        }
    }
}

/// What has happened outside since the last step.
#[derive(Debug, PartialEq, Eq)]
pub enum Event {
    /// Nothing: the last step asked for no outside work.
    Advance,
    /// The fetch of the header above the trusted block has ended.
    HeaderFetched(Result<HeaderResponse, ServiceError>),
    /// The proving backend has ended.
    Proved(Result<ProofArtifacts, ServiceError>),
    /// The submission to the verifier has ended.
    Submitted(Result<Vec<u8>, ServiceError>),
    /// An unexpected fault was caught while the request was handled.
    Fault,
}

/// What the caller is to do next for a request.
#[derive(Clone, Debug, PartialEq, Eq)]
pub enum Action {
    /// Nothing outside: step again with [`Event::Advance`].
    Continue,
    /// Get `url` from the consensus RPC, within the retry budget.
    FetchHeader { url: String },
    /// Prove the step from the block at `prev_height`.
    ProveStep { prev_height: u64, prev_header_hash: Hash256 },
    /// Prove the skip from the block at `trusted_height` to `target_height`.
    ProveSkip { trusted_header: Hash256, trusted_height: u64, target_height: u64 },
    /// Post `body` to `url` at the verifier service.
    Submit { url: String, body: Vec<u8> },
    /// Answer the request.
    Respond(Response),
    /// Nothing: the request has been answered.
    Halt,
}

impl Action {
    /// The action reaches out to the network.
    pub open spec fn is_network_call(self) -> bool {
        self is FetchHeader || self is Submit
    }
}

/// A proof request and all that is known of it so far.
#[derive(Clone, Debug, PartialEq, Eq)]
pub enum Request {
    Received { args: ProveArgs },
    Validated { range: HeightRange, strategy: Strategy },
    Fetching { range: HeightRange, strategy: Strategy },
    Proving { range: HeightRange, strategy: Strategy, trusted_hash: Hash256 },
    Submitting { bundle: ProofBundle },
    Completed { body: Vec<u8> },
    Failed { error: ServiceError },
}

/// The request has failed with `error`, and is answered so.
pub open spec fn fails_with(next: Request, action: Action, error: ServiceError) -> bool {
    &&& next == Request::Failed { error }
    &&& action == Action::Respond(Response::Failure { error })
}

/// The action that asks the backend for the proof of `range` by `strategy`.
pub open spec fn proves(
    action: Action,
    range: HeightRange,
    strategy: Strategy,
    trusted_hash: Hash256,
) -> bool {
    match strategy {
        Strategy::Step => action == Action::ProveStep {
            prev_height: range.trusted(),
            prev_header_hash: trusted_hash,
        },
        Strategy::Skip => action == Action::ProveSkip {
            trusted_header: trusted_hash,
            trusted_height: range.trusted(),
            target_height: range.target(),
        },
    }
}

impl Request {
    /// The phase the request is in.
    pub open spec fn phase_of(self) -> Phase {
        match self {
            Request::Received { .. } => Phase::Received,
            Request::Validated { .. } => Phase::Validated,
            Request::Fetching { .. } => Phase::Fetching,
            Request::Proving { .. } => Phase::Proving,
            Request::Submitting { .. } => Phase::Submitting,
            Request::Completed { .. } => Phase::Completed,
            Request::Failed { .. } => Phase::Failed,
        }
    }

    /// What the request holds is consistent: its range is valid and its
    /// strategy is the one for that range.
    pub open spec fn wf(self) -> bool {
        match self {
            Request::Validated { range, strategy } => range.wf() && strategy == strategy_for(
                range.trusted(),
                range.target(),
            ),
            Request::Fetching { range, strategy } => range.wf() && strategy == strategy_for(
                range.trusted(),
                range.target(),
            ),
            Request::Proving { range, strategy, .. } => range.wf() && strategy == strategy_for(
                range.trusted(),
                range.target(),
            ),
            _ => true,
        }
    }

    /// A request that has just come in.
    pub fn received(args: ProveArgs) -> (request: Request)
        ensures
            request == (Request::Received { args }),
            request.wf(),
    {
        Request::Received { args }
    }

    /// The phase the request is in.
    pub fn phase(&self) -> (phase: Phase)
        ensures
            phase == self.phase_of(),
    {
        match self {
            Request::Received { .. } => Phase::Received,
            Request::Validated { .. } => Phase::Validated,
            Request::Fetching { .. } => Phase::Fetching,
            Request::Proving { .. } => Phase::Proving,
            Request::Submitting { .. } => Phase::Submitting,
            Request::Completed { .. } => Phase::Completed,
            Request::Failed { .. } => Phase::Failed,
        }
    }

    /// From `Received`: the heights are validated and the strategy is
    /// selected.  Nothing is asked of the outside.
    pub open spec fn validates_to(
        args: ProveArgs,
        service: &ServiceState,
        next: Request,
        action: Action,
    ) -> bool {
        match selection(
            args.trusted_height,
            args.target_height,
            service.config.skip_max,
            service.step_enabled,
        ) {
            Err(e) => fails_with(next, action, e),
            Ok(strategy) => {
                &&& next matches Request::Validated { range, strategy: selected }
                &&& range.trusted() == args.trusted_height
                &&& range.target() == args.target_height
                &&& range.bound() == service.config.skip_max
                &&& range.wf()
                &&& selected == strategy
                &&& action == Action::Continue
            },
        }
    }

    /// From `Validated`: the header above the trusted block is asked for.
    pub open spec fn fetches_to(
        range: HeightRange,
        strategy: Strategy,
        service: &ServiceState,
        next: Request,
        action: Action,
    ) -> bool {
        if service.tm_url@.len() == 0 {
            fails_with(next, action, ServiceError::Validation(ValidationError::EmptyUrl))
        } else {
            &&& next == Request::Fetching { range, strategy }
            &&& action matches Action::FetchHeader { url }
            &&& url@ == request_url_text(service.tm_url@, header_route_text(range.trusted()))
        }
    }

    /// From `Fetching`: the trusted hash is read from the header, and the
    /// proof is asked for.
    pub open spec fn proves_to(
        range: HeightRange,
        strategy: Strategy,
        fetched: Result<HeaderResponse, ServiceError>,
        next: Request,
        action: Action,
    ) -> bool {
        match fetched {
            Err(e) => fails_with(next, action, e),
            Ok(response) => match response.parent_hash() {
                None => fails_with(next, action, ServiceError::DataIntegrity),
                Some(trusted_hash) => {
                    &&& next == Request::Proving { range, strategy, trusted_hash }
                    &&& proves(action, range, strategy, trusted_hash)
                },
            },
        }
    }

    /// From `Proving`: the proof is bundled with its commitments and sent to
    /// the verifier.
    pub open spec fn submits_to(
        range: HeightRange,
        strategy: Strategy,
        trusted_hash: Hash256,
        proved: Result<ProofArtifacts, ServiceError>,
        service: &ServiceState,
        next: Request,
        action: Action,
    ) -> bool {
        match proved {
            Err(e) => fails_with(next, action, e),
            Ok(artifacts) => {
                &&& next matches Request::Submitting { bundle }
                &&& bundle.packages(
                    strategy,
                    range.trusted(),
                    trusted_hash,
                    range.target(),
                    artifacts,
                )
                &&& action matches Action::Submit { url, body }
                &&& url@ == service.gnark_verifier_address@ + "/prove"@
                &&& body@ == prove_request_json(
                    artifacts.wrapped_proof.proof@,
                    artifacts.wrapped_proof.verifier_data@,
                )
            },
        }
    }

    /// From `Submitting`: the verifier's answer is relayed if it is JSON.
    pub open spec fn completes_to(
        submitted: Result<Vec<u8>, ServiceError>,
        next: Request,
        action: Action,
    ) -> bool {
        match submitted {
            Err(e) => fails_with(next, action, e),
            Ok(answer) => if is_json(answer@) {
                &&& next matches Request::Completed { body: kept }
                &&& kept@ == answer@
                &&& action matches Action::Respond(Response::Success { body })
                &&& body@ == answer@
            } else {
                fails_with(next, action, ServiceError::GatewaySubmission)
            },
        }
    }

    /// The step relation of a request: in state `self`, after `event`, the
    /// request is in state `next` and the caller is to perform `action`.
    ///
    /// A request that is over stays as it is.  A fault, and an event that
    /// does not belong to the phase the request is in, fail the request.
    pub open spec fn steps_to(
        self,
        service: &ServiceState,
        event: Event,
        next: Request,
        action: Action,
    ) -> bool {
        match self {
            Request::Completed { .. } | Request::Failed { .. } => next == self && action
                == Action::Halt,
            Request::Received { args } => match event {
                Event::Advance => Self::validates_to(args, service, next, action),
                _ => fails_with(next, action, ServiceError::Fault),
            },
            Request::Validated { range, strategy } => match event {
                Event::Advance => Self::fetches_to(range, strategy, service, next, action),
                _ => fails_with(next, action, ServiceError::Fault),
            },
            Request::Fetching { range, strategy } => match event {
                Event::HeaderFetched(fetched) => Self::proves_to(
                    range,
                    strategy,
                    fetched,
                    next,
                    action,
                ),
                _ => fails_with(next, action, ServiceError::Fault),
            },
            Request::Proving { range, strategy, trusted_hash } => match event {
                Event::Proved(proved) => Self::submits_to(
                    range,
                    strategy,
                    trusted_hash,
                    proved,
                    service,
                    next,
                    action,
                ),
                _ => fails_with(next, action, ServiceError::Fault),
            },
            Request::Submitting { .. } => match event {
                Event::Submitted(submitted) => Self::completes_to(submitted, next, action),
                _ => fails_with(next, action, ServiceError::Fault),
            },
        }
    }

    /// Takes the request one step further.
    ///
    /// The caller performs the action that a step returns and reports how it
    /// ended as the event of the next step, until the action is
    /// [`Action::Respond`].
    pub fn step(self, service: &ServiceState, event: Event) -> (res: (Request, Action))
        ensures
            self.steps_to(service, event, res.0, res.1),
            self.wf() ==> res.0.wf(),
    {
        match self {
            Request::Completed { body } => (Request::Completed { body }, Action::Halt),
            Request::Failed { error } => (Request::Failed { error }, Action::Halt),
            Request::Received { args } => match event {
                Event::Advance => match select(
                    args.trusted_height,
                    args.target_height,
                    &service.config,
                    service.step_enabled,
                ) {
                    Err(e) => fail(e),
                    Ok((range, strategy)) => (
                        Request::Validated { range, strategy },
                        Action::Continue,
                    ),
                },
                _ => fail(ServiceError::Fault),
            },
            Request::Validated { range, strategy } => match event {
                Event::Advance => match trusted_block_hash_url(
                    service.tm_url.as_str(),
                    range.trusted_height(),
                ) {
                    Err(e) => fail(ServiceError::Validation(e)),
                    Ok(url) => (Request::Fetching { range, strategy }, Action::FetchHeader { url }),
                },
                _ => fail(ServiceError::Fault),
            },
            Request::Fetching { range, strategy } => match event {
                Event::HeaderFetched(Ok(response)) => match response.trusted_block_hash() {
                    Err(e) => fail(e),
                    Ok(trusted_hash) => {
                        let action = match strategy {
                            Strategy::Step => Action::ProveStep {
                                prev_height: range.trusted_height(),
                                prev_header_hash: trusted_hash,
                            },
                            Strategy::Skip => Action::ProveSkip {
                                trusted_header: trusted_hash,
                                trusted_height: range.trusted_height(),
                                target_height: range.target_height(),
                            },
                        };
                        (Request::Proving { range, strategy, trusted_hash }, action)
                    },
                },
                Event::HeaderFetched(Err(e)) => fail(e),
                _ => fail(ServiceError::Fault),
            },
            Request::Proving { range, strategy, trusted_hash } => match event {
                Event::Proved(Ok(artifacts)) => {
                    let bundle = ProofBundle::new(
                        strategy,
                        range.trusted_height(),
                        &trusted_hash,
                        range.target_height(),
                        artifacts,
                    );
                    let body = bundle.request().to_json();
                    let url = prove_url(service.gnark_verifier_address.as_str());
                    (Request::Submitting { bundle }, Action::Submit { url, body })
                },
                Event::Proved(Err(e)) => fail(e),
                _ => fail(ServiceError::Fault),
            },
            Request::Submitting { bundle } => match event {
                Event::Submitted(Ok(answer)) => match check_answer(answer) {
                    Ok(body) => {
                        let kept = copy_bytes(&body);
                        (
                            Request::Completed { body: kept },
                            Action::Respond(Response::Success { body }),
                        )
                    },
                    Err(e) => fail(e),
                },
                Event::Submitted(Err(e)) => fail(e),
                _ => fail(ServiceError::Fault),
            },
        }
    }
}

/// The failed request and the answer that reports `error`.
fn fail(error: ServiceError) -> (res: (Request, Action))
    ensures
        fails_with(res.0, res.1, error),
        res.0.wf(),
{
    (Request::Failed { error }, Action::Respond(Response::Failure { error }))
}

/// A request goes through its phases in order, one at a step, and may fail
/// at any of them.  It is answered exactly when it ends, and a request that
/// has ended never changes again.
pub proof fn lemma_phases_in_order(
    request: Request,
    service: &ServiceState,
    event: Event,
    next: Request,
    action: Action,
)
    requires
        request.steps_to(service, event, next, action),
    ensures
        request.phase_of().is_terminal() ==> next == request && action == Action::Halt,
        !request.phase_of().is_terminal() ==> next.phase_of() == Phase::Failed
            || next.phase_of().rank() == request.phase_of().rank() + 1,
        !request.phase_of().is_terminal() ==> (action is Respond <==> next.phase_of().is_terminal()),
{
}

/// The network is reached only for a request that has passed validation:
/// the consensus RPC from `Validated`, the verifier service from `Proving`.
/// The proving backend is asked only from `Fetching`, for the range and the
/// strategy that were validated, with the hash that the fetched header holds.
pub proof fn lemma_outside_work_by_phase(
    request: Request,
    service: &ServiceState,
    event: Event,
    next: Request,
    action: Action,
)
    requires
        request.wf(),
        request.steps_to(service, event, next, action),
    ensures
        action is FetchHeader ==> request is Validated && next is Fetching,
        action is Submit ==> request is Proving && next is Submitting,
        action is ProveStep || action is ProveSkip ==> {
            &&& request matches Request::Fetching { range, strategy }
            &&& event matches Event::HeaderFetched(Ok(response))
            &&& response.parent_hash() matches Some(trusted_hash)
            &&& proves(action, range, strategy, trusted_hash)
            &&& (action is ProveStep <==> range.target() - range.trusted() == 1)
        },
{
}

/// A request whose heights are rejected fails at its first step with that
/// validation error and status 400.  No strategy is selected for it and
/// nothing outside is asked on its behalf.
pub proof fn lemma_rejected_at_once(
    args: ProveArgs,
    service: &ServiceState,
    next: Request,
    action: Action,
)
    requires
        check_heights(args.trusted_height, args.target_height, service.config.skip_max) is Err,
        (Request::Received { args }).steps_to(service, Event::Advance, next, action),
    ensures
        next matches Request::Failed { error: ServiceError::Validation(e) } && check_heights(
            args.trusted_height,
            args.target_height,
            service.config.skip_max,
        ) == Err::<(), ValidationError>(e),
        action matches Action::Respond(response) && response.status_code() == 400,
        !action.is_network_call(),
{
}

/// A request whose heights are accepted is validated with the strategy of
/// its height difference, `Step` for adjacent heights and `Skip` otherwise,
/// unless that strategy is `Step` in a deployment without a step circuit:
/// then it fails, and does not fall back to `Skip`.
pub proof fn lemma_accepted_with_strategy(
    args: ProveArgs,
    service: &ServiceState,
    next: Request,
    action: Action,
)
    requires
        check_heights(args.trusted_height, args.target_height, service.config.skip_max) is Ok,
        (Request::Received { args }).steps_to(service, Event::Advance, next, action),
    ensures
        args.target_height - args.trusted_height == 1 && service.step_enabled ==> next matches Request::Validated {
            strategy: Strategy::Step,
            ..
        },
        args.target_height - args.trusted_height == 1 && !service.step_enabled ==> next
            == (Request::Failed { error: ServiceError::StepNotEnabled }),
        args.target_height - args.trusted_height != 1 ==> next matches Request::Validated {
            strategy: Strategy::Skip,
            ..
        },
{
}

/// A request is completed only by a verifier's answer that is JSON, and the
/// answer is what the request is answered with.  No failure on the way is
/// turned into a success.
pub proof fn lemma_no_silent_success(
    request: Request,
    service: &ServiceState,
    event: Event,
    next: Request,
    action: Action,
)
    requires
        !request.phase_of().is_terminal(),
        request.steps_to(service, event, next, action),
    ensures
        next is Completed ==> {
            &&& request is Submitting
            &&& event matches Event::Submitted(Ok(answer))
            &&& is_json(answer@)
            &&& next matches Request::Completed { body }
            &&& body@ == answer@
            &&& action matches Action::Respond(Response::Success { body: sent })
            &&& sent@ == answer@
        },
        event matches Event::HeaderFetched(Err(e)) ==> next is Failed,
        event matches Event::Proved(Err(e)) ==> next is Failed,
        event matches Event::Submitted(Err(e)) ==> next is Failed,
{
}

/// A fault that is caught while a request is handled fails that request,
/// with status 500, in whatever phase it is.  The step reads and writes
/// nothing but the request itself, so no other request is touched.
pub proof fn lemma_fault_fails_the_request(
    request: Request,
    service: &ServiceState,
    next: Request,
    action: Action,
)
    requires
        !request.phase_of().is_terminal(),
        request.steps_to(service, Event::Fault, next, action),
    ensures
        next == (Request::Failed { error: ServiceError::Fault }),
        action == Action::Respond(Response::Failure { error: ServiceError::Fault }),
        (Response::Failure { error: ServiceError::Fault }).status_code() == 500,
{
}

/// A request whose heights are accepted, in a deployment that has the
/// strategy they call for and knows its consensus RPC, is completed in five
/// steps if the fetch, the proof and the submission succeed: it is validated,
/// its header is fetched, its proof is made by the selected strategy and
/// submitted, and the verifier's answer is returned with status 200.
pub proof fn lemma_successful_request(
    args: ProveArgs,
    service: &ServiceState,
    response: HeaderResponse,
    artifacts: ProofArtifacts,
    answer: Vec<u8>,
    states: Seq<Request>,
    actions: Seq<Action>,
)
    requires
        selection(
            args.trusted_height,
            args.target_height,
            service.config.skip_max,
            service.step_enabled,
        ) is Ok,
        service.tm_url@.len() > 0,
        response.parent_hash() is Some,
        is_json(answer@),
        states.len() == 6,
        actions.len() == 5,
        states[0] == (Request::Received { args }),
        states[0].steps_to(service, Event::Advance, states[1], actions[0]),
        states[1].steps_to(service, Event::Advance, states[2], actions[1]),
        states[2].steps_to(service, Event::HeaderFetched(Ok(response)), states[3], actions[2]),
        states[3].steps_to(service, Event::Proved(Ok(artifacts)), states[4], actions[3]),
        states[4].steps_to(service, Event::Submitted(Ok(answer)), states[5], actions[4]),
    ensures
        states[1] is Validated,
        states[2] is Fetching,
        states[3] is Proving,
        states[4] is Submitting,
        actions[0] == Action::Continue,
        actions[1] is FetchHeader,
        args.target_height - args.trusted_height == 1 ==> actions[2] == (Action::ProveStep {
            prev_height: args.trusted_height,
            prev_header_hash: response.parent_hash()->Some_0,
        }),
        args.target_height - args.trusted_height != 1 ==> actions[2] == (Action::ProveSkip {
            trusted_header: response.parent_hash()->Some_0,
            trusted_height: args.trusted_height,
            target_height: args.target_height,
        }),
        actions[3] is Submit,
        states[5] matches Request::Completed { body } && body@ == answer@,
        actions[4] matches Action::Respond(sent) && sent.status_code() == 200 && (
        sent matches Response::Success { body } && body@ == answer@),
{
}

} // verus!
