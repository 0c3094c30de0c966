use tendermintx_prover::circuits::skip::skip_input_hash;
use tendermintx_prover::circuits::step::step_input_hash;
use tendermintx_prover::circuits::WrappedOutput;
use tendermintx_prover::commands::service::Action;
use tendermintx_prover::commands::service::Event;
use tendermintx_prover::commands::service::Phase;
use tendermintx_prover::commands::service::ProofArtifacts;
use tendermintx_prover::commands::service::ProofBundle;
use tendermintx_prover::commands::service::ProveArgs;
use tendermintx_prover::commands::service::Request;
use tendermintx_prover::commands::service::Response;
use tendermintx_prover::commands::service::Route;
use tendermintx_prover::commands::service::ServiceCommand;
use tendermintx_prover::commands::service::ServiceState;
use tendermintx_prover::commands::Cli;
use tendermintx_prover::commands::Command;
use tendermintx_prover::config::ChainConfig;
use tendermintx_prover::error::ServiceError;
use tendermintx_prover::error::ValidationError;
use tendermintx_prover::strategy::HeightRange;
use tendermintx_prover::strategy::Strategy;
use tendermintx_prover::tendermint_client::BlockHash;
use tendermintx_prover::tendermint_client::BlockId;
use tendermintx_prover::tendermint_client::Header;
use tendermintx_prover::tendermint_client::HeaderResponse;
use tendermintx_prover::tendermint_client::WrappedHeader;

const MAX_SKIP: u64 = 1000;

fn service(step_enabled: bool) -> ServiceState {
    ServiceCommand::with_defaults().state(
        String::from("http://rpc:26657"),
        step_enabled,
        ChainConfig::with_skip_max(MAX_SKIP),
    )
}

fn header_with(hash: [u8; 32]) -> HeaderResponse {
    HeaderResponse {
        result: WrappedHeader {
            header: Header { last_block_id: Some(BlockId { hash: BlockHash::Sha256(hash) }) },
        },
    }
}

fn artifacts() -> ProofArtifacts {
    ProofArtifacts {
        header: [0xbb; 32],
        wrapped_proof: WrappedOutput {
            proof: b"{\"p\":1}".to_vec(),
            common_data: b"{\"c\":2}".to_vec(),
            verifier_data: b"{\"v\":3}".to_vec(),
        },
    }
}

fn failure(error: ServiceError) -> Action {
    Action::Respond(Response::Failure { error })
}

/// A stub of the outside world: performs each action as the real one would
/// and reports how it ended.  The verifier echoes what it is sent.
fn perform(action: &Action, log: &mut Vec<String>) -> Event {
    match action {
        Action::Continue => Event::Advance,
        Action::FetchHeader { url } => {
            log.push(format!("GET {}", url));
            Event::HeaderFetched(Ok(header_with([0xaa; 32])))
        }
        Action::ProveStep { .. } => {
            log.push(String::from("prove step"));
            Event::Proved(Ok(artifacts()))
        }
        Action::ProveSkip { .. } => {
            log.push(String::from("prove skip"));
            Event::Proved(Ok(artifacts()))
        }
        Action::Submit { url, body } => {
            log.push(format!("POST {}", url));
            Event::Submitted(Ok(body.clone()))
        }
        Action::Respond(_) | Action::Halt => unreachable!(),
    }
}

/// Handles one request against the stub and returns the answer.
fn handle(args: ProveArgs, service: &ServiceState, log: &mut Vec<String>) -> Response {
    let mut request = Request::received(args);
    let mut event = Event::Advance;
    loop {
        let (next, action) = request.step(service, event);
        request = next;
        if let Action::Respond(response) = action {
            return response;
        }
        event = perform(&action, log);
    }
}

#[test]
fn end_to_end_step_request() {
    let service = service(true);
    let request = Request::received(ProveArgs { trusted_height: 100, target_height: 101 });
    assert_eq!(request.phase(), Phase::Received);

    let (request, action) = request.step(&service, Event::Advance);
    assert_eq!(request.phase(), Phase::Validated);
    assert_eq!(action, Action::Continue);
    match &request {
        Request::Validated { range, strategy } => {
            assert_eq!(*strategy, Strategy::Step);
            assert_eq!(range.trusted_height(), 100);
            assert_eq!(range.target_height(), 101);
        }
        other => panic!("unexpected state {:?}", other),
    }

    let (request, action) = request.step(&service, Event::Advance);
    assert_eq!(request.phase(), Phase::Fetching);
    assert_eq!(
        action,
        Action::FetchHeader { url: String::from("http://rpc:26657/header?height=101") }
    );

    let (request, action) = request.step(&service, Event::HeaderFetched(Ok(header_with([0xaa; 32]))));
    assert_eq!(request.phase(), Phase::Proving);
    assert_eq!(action, Action::ProveStep { prev_height: 100, prev_header_hash: [0xaa; 32] });

    let (request, action) = request.step(&service, Event::Proved(Ok(artifacts())));
    assert_eq!(request.phase(), Phase::Submitting);
    let expected_body =
        b"{\"proofWithPublicInputs\":{\"p\":1},\"verifierOnlyCircuitData\":{\"v\":3}}".to_vec();
    assert_eq!(
        action,
        Action::Submit {
            url: String::from("http://127.0.0.1:3030/prove"),
            body: expected_body.clone(),
        }
    );
    match &request {
        Request::Submitting { bundle: ProofBundle::Step(output) } => {
            assert_eq!(output.input_hash, step_input_hash(100, &[0xaa; 32]));
            assert_eq!(
                output.input_hash,
                [
                    0x7f, 0x41, 0x3c, 0xdc, 0xcc, 0xa2, 0x25, 0xcd, 0xff, 0xee, 0x3e, 0xe9, 0x2d,
                    0xb9, 0xc2, 0x60, 0xb8, 0x58, 0xd5, 0x0b, 0x66, 0xfe, 0x8d, 0x3c, 0x8b, 0x5f,
                    0x5b, 0xc8, 0xb3, 0x8e, 0x64, 0x36,
                ]
            );
            assert_eq!(output.next_header, [0xbb; 32]);
            assert_eq!(output.wrapped_proof, artifacts().wrapped_proof);
        }
        other => panic!("unexpected state {:?}", other),
    }

    let (request, action) = request.step(&service, Event::Submitted(Ok(expected_body.clone())));
    assert_eq!(request.phase(), Phase::Completed);
    assert_eq!(request, Request::Completed { body: expected_body.clone() });
    match action {
        Action::Respond(response) => {
            assert_eq!(response.status(), 200);
            assert_eq!(response, Response::Success { body: expected_body });
        }
        other => panic!("unexpected action {:?}", other),
    }
}

#[test]
fn end_to_end_skip_request() {
    let service = service(false);
    let request = Request::received(ProveArgs { trusted_height: 100, target_height: 600 });
    let (request, _) = request.step(&service, Event::Advance);
    let (request, _) = request.step(&service, Event::Advance);
    let (request, action) = request.step(&service, Event::HeaderFetched(Ok(header_with([0xaa; 32]))));
    assert_eq!(
        action,
        Action::ProveSkip { trusted_header: [0xaa; 32], trusted_height: 100, target_height: 600 }
    );
    let (request, action) = request.step(&service, Event::Proved(Ok(artifacts())));
    assert!(matches!(action, Action::Submit { .. }));
    match &request {
        Request::Submitting { bundle: ProofBundle::Skip(output) } => {
            assert_eq!(output.input_hash, skip_input_hash(100, &[0xaa; 32], 600));
            assert_eq!(output.target_header, [0xbb; 32]);
        }
        other => panic!("unexpected state {:?}", other),
    }
    let (request, action) = request.step(&service, Event::Submitted(Ok(b"{\"ok\":true}".to_vec())));
    assert_eq!(request, Request::Completed { body: b"{\"ok\":true}".to_vec() });
    assert_eq!(action, Action::Respond(Response::Success { body: b"{\"ok\":true}".to_vec() }));
}

#[test]
fn stubbed_service_echoes_the_bundle() {
    let mut log = Vec::new();
    let response =
        handle(ProveArgs { trusted_height: 100, target_height: 101 }, &service(true), &mut log);
    assert_eq!(response.status(), 200);
    assert_eq!(
        response,
        Response::Success {
            body: b"{\"proofWithPublicInputs\":{\"p\":1},\"verifierOnlyCircuitData\":{\"v\":3}}"
                .to_vec()
        }
    );
    assert_eq!(
        log,
        vec![
            "GET http://rpc:26657/header?height=101",
            "prove step",
            "POST http://127.0.0.1:3030/prove"
        ]
    );
}

#[test]
fn boundary_range_is_accepted() {
    let mut log = Vec::new();
    let response = handle(
        ProveArgs { trusted_height: 100, target_height: 100 + MAX_SKIP },
        &service(true),
        &mut log,
    );
    assert_eq!(response.status(), 200);
    assert_eq!(log[1], "prove skip");
}

#[test]
fn range_beyond_boundary_is_rejected_before_any_network_call() {
    let mut log = Vec::new();
    let response = handle(
        ProveArgs { trusted_height: 100, target_height: 101 + MAX_SKIP },
        &service(true),
        &mut log,
    );
    assert_eq!(
        response,
        Response::Failure { error: ServiceError::Validation(ValidationError::RangeTooLarge) }
    );
    assert_eq!(response.status(), 400);
    assert!(log.is_empty());

    let request = Request::received(ProveArgs { trusted_height: 100, target_height: 101 + MAX_SKIP });
    let (request, action) = request.step(&service(true), Event::Advance);
    assert_eq!(request.phase(), Phase::Failed);
    assert_eq!(action, failure(ServiceError::Validation(ValidationError::RangeTooLarge)));
}

#[test]
fn empty_range_is_rejected_before_any_network_call() {
    let mut log = Vec::new();
    let response =
        handle(ProveArgs { trusted_height: 100, target_height: 100 }, &service(true), &mut log);
    assert_eq!(
        response,
        Response::Failure {
            error: ServiceError::Validation(ValidationError::TargetNotAboveTrusted)
        }
    );
    assert_eq!(response.status(), 400);
    assert!(log.is_empty());
}

#[test]
fn step_request_without_step_circuit_fails() {
    let mut log = Vec::new();
    let response =
        handle(ProveArgs { trusted_height: 100, target_height: 101 }, &service(false), &mut log);
    assert_eq!(response, Response::Failure { error: ServiceError::StepNotEnabled });
    assert_eq!(response.status(), 500);
    assert!(log.is_empty());
}

#[test]
fn empty_rpc_url_fails_before_fetching() {
    let service = ServiceCommand::with_defaults().state(
        String::new(),
        true,
        ChainConfig::with_skip_max(MAX_SKIP),
    );
    let mut log = Vec::new();
    let response = handle(ProveArgs { trusted_height: 100, target_height: 101 }, &service, &mut log);
    assert_eq!(
        response,
        Response::Failure { error: ServiceError::Validation(ValidationError::EmptyUrl) }
    );
    assert!(log.is_empty());
}

fn fetching() -> Request {
    let request = Request::received(ProveArgs { trusted_height: 100, target_height: 105 });
    let (request, _) = request.step(&service(true), Event::Advance);
    let (request, _) = request.step(&service(true), Event::Advance);
    assert_eq!(request.phase(), Phase::Fetching);
    request
}

fn proving() -> Request {
    let (request, _) =
        fetching().step(&service(true), Event::HeaderFetched(Ok(header_with([0xaa; 32]))));
    assert_eq!(request.phase(), Phase::Proving);
    request
}

fn submitting() -> Request {
    let (request, _) = proving().step(&service(true), Event::Proved(Ok(artifacts())));
    assert_eq!(request.phase(), Phase::Submitting);
    request
}

#[test]
fn fetch_failures_are_fatal() {
    let (request, action) =
        fetching().step(&service(true), Event::HeaderFetched(Err(ServiceError::TransientFetch)));
    assert_eq!(request, Request::Failed { error: ServiceError::TransientFetch });
    assert_eq!(action, failure(ServiceError::TransientFetch));

    let no_link = HeaderResponse { result: WrappedHeader { header: Header { last_block_id: None } } };
    let (request, action) = fetching().step(&service(true), Event::HeaderFetched(Ok(no_link)));
    assert_eq!(request, Request::Failed { error: ServiceError::DataIntegrity });
    assert_eq!(action, failure(ServiceError::DataIntegrity));

    let empty = HeaderResponse {
        result: WrappedHeader {
            header: Header { last_block_id: Some(BlockId { hash: BlockHash::Empty }) },
        },
    };
    let (request, _) = fetching().step(&service(true), Event::HeaderFetched(Ok(empty)));
    assert_eq!(request, Request::Failed { error: ServiceError::DataIntegrity });
}

#[test]
fn proving_failure_is_fatal() {
    let (request, action) = proving().step(&service(true), Event::Proved(Err(ServiceError::Proving)));
    assert_eq!(request, Request::Failed { error: ServiceError::Proving });
    assert_eq!(action, failure(ServiceError::Proving));
}

#[test]
fn submission_failures_are_fatal() {
    let (request, action) =
        submitting().step(&service(true), Event::Submitted(Err(ServiceError::GatewaySubmission)));
    assert_eq!(request, Request::Failed { error: ServiceError::GatewaySubmission });
    assert_eq!(action, failure(ServiceError::GatewaySubmission));

    let (request, action) =
        submitting().step(&service(true), Event::Submitted(Ok(b"<html>".to_vec())));
    assert_eq!(request, Request::Failed { error: ServiceError::GatewaySubmission });
    assert_eq!(action, failure(ServiceError::GatewaySubmission));
}

#[test]
fn fault_fails_the_request_in_every_phase() {
    let received = Request::received(ProveArgs { trusted_height: 100, target_height: 105 });
    let (validated, _) = received.clone().step(&service(true), Event::Advance);
    for request in [received, validated, fetching(), proving(), submitting()] {
        let (next, action) = request.step(&service(true), Event::Fault);
        assert_eq!(next, Request::Failed { error: ServiceError::Fault });
        assert_eq!(action, failure(ServiceError::Fault));
    }
    assert_eq!(Response::Failure { error: ServiceError::Fault }.status(), 500);
}

#[test]
fn fault_in_one_request_leaves_the_next_untouched() {
    let service = service(true);
    let (request, action) = proving().step(&service, Event::Fault);
    assert_eq!(request.phase(), Phase::Failed);
    assert_eq!(action, failure(ServiceError::Fault));

    let mut log = Vec::new();
    let response = handle(ProveArgs { trusted_height: 100, target_height: 105 }, &service, &mut log);
    assert_eq!(response.status(), 200);
    assert!(matches!(response, Response::Success { .. }));
}

#[test]
fn event_of_another_phase_is_a_fault() {
    let (request, action) = fetching().step(&service(true), Event::Proved(Ok(artifacts())));
    assert_eq!(request, Request::Failed { error: ServiceError::Fault });
    assert_eq!(action, failure(ServiceError::Fault));
    let (request, _) = proving().step(&service(true), Event::Advance);
    assert_eq!(request, Request::Failed { error: ServiceError::Fault });
    let (request, _) = submitting().step(&service(true), Event::HeaderFetched(Ok(header_with([1; 32]))));
    assert_eq!(request, Request::Failed { error: ServiceError::Fault });
    let received = Request::received(ProveArgs { trusted_height: 100, target_height: 105 });
    let (request, _) = received.step(&service(true), Event::Submitted(Ok(b"{}".to_vec())));
    assert_eq!(request, Request::Failed { error: ServiceError::Fault });
}

#[test]
fn finished_request_stays_as_it_is() {
    let done = Request::Completed { body: b"{}".to_vec() };
    let (next, action) = done.clone().step(&service(true), Event::Fault);
    assert_eq!(next, done);
    assert_eq!(action, Action::Halt);
    let failed = Request::Failed { error: ServiceError::Proving };
    let (next, action) = failed.clone().step(&service(true), Event::Advance);
    assert_eq!(next, failed);
    assert_eq!(action, Action::Halt);
}

#[test]
fn bundle_by_strategy() {
    let step = ProofBundle::new(Strategy::Step, 100, &[0xaa; 32], 101, artifacts());
    assert!(matches!(step, ProofBundle::Step(_)));
    let skip = ProofBundle::new(Strategy::Skip, 100, &[0xaa; 32], 105, artifacts());
    match &skip {
        ProofBundle::Skip(output) => {
            assert_eq!(output.input_hash, skip_input_hash(100, &[0xaa; 32], 105))
        }
        other => panic!("unexpected bundle {:?}", other),
    }
    let req = skip.request();
    assert_eq!(req.proof_with_public_inputs, b"{\"p\":1}".to_vec());
    assert_eq!(req.verifier_only_circuit_data, b"{\"v\":3}".to_vec());
}

#[test]
fn only_proving_is_limited() {
    assert_eq!(Route::Prove.concurrency_limit(), Some(1));
    assert_eq!(Route::Health.concurrency_limit(), None);
    assert_eq!(Route::Prove.path(), "/prove");
    assert_eq!(Route::Health.path(), "/health");
}

#[test]
fn service_command_defaults() {
    let command = ServiceCommand::with_defaults();
    assert_eq!(command.addr, "0.0.0.0:3000");
    assert_eq!(command.gnark_verifier_address, "http://127.0.0.1:3030");
    let state = command.state(String::from("http://rpc"), false, ChainConfig::with_skip_max(7));
    assert_eq!(state.tm_url, "http://rpc");
    assert_eq!(state.gnark_verifier_address, "http://127.0.0.1:3030");
    assert!(!state.step_enabled);
    assert_eq!(state.config.skip_max, 7);
    let cli = Cli { command: Command::Service(command.clone()) };
    assert_eq!(cli.command, Command::Service(command));
}

#[test]
fn validated_range_is_kept_through_the_phases() {
    match proving() {
        Request::Proving { range, strategy, trusted_hash } => {
            assert_eq!(range, HeightRange::new(100, 105, MAX_SKIP).unwrap());
            assert_eq!(strategy, Strategy::Skip);
            assert_eq!(trusted_hash, [0xaa; 32]);
        }
        other => panic!("unexpected state {:?}", other),
    }
}
