use std::convert::Infallible;
use std::sync::atomic::AtomicUsize;
use std::sync::atomic::Ordering;
use std::sync::Arc;
use std::time::Duration;
use tendermintx_prover::circuits::WrappedOutput;
use tendermintx_prover::commands::service::Action;
use tendermintx_prover::commands::service::Event;
use tendermintx_prover::commands::service::ProofArtifacts;
use tendermintx_prover::commands::service::ProveArgs;
use tendermintx_prover::commands::service::Request;
use tendermintx_prover::commands::service::Response;
use tendermintx_prover::commands::service::Route;
use tendermintx_prover::commands::service::ServiceCommand;
use tendermintx_prover::commands::service::ServiceState;
use tendermintx_prover::config::ChainConfig;
use tendermintx_prover::tendermint_client::BlockHash;
use tendermintx_prover::tendermint_client::BlockId;
use tendermintx_prover::tendermint_client::Header;
use tendermintx_prover::tendermint_client::HeaderResponse;
use tendermintx_prover::tendermint_client::WrappedHeader;
use tower::limit::ConcurrencyLimitLayer;
use tower::Service;
use tower::ServiceBuilder;
use tower::ServiceExt;

/// Counts how many proofs are being made at once, and the most that ever
/// were.
struct Gauge {
    inside: AtomicUsize,
    most: AtomicUsize,
    entered: AtomicUsize,
}

fn service_state() -> ServiceState {
    ServiceCommand::with_defaults().state(
        String::from("http://rpc:26657"),
        true,
        ChainConfig::with_skip_max(1000),
    )
}

/// Handles one request with a stub in place of the outside world.  The stub
/// of the proving backend takes its time and records who else is inside.
async fn handle(args: ProveArgs, gauge: Arc<Gauge>) -> Result<Response, Infallible> {
    let state = service_state();
    let mut request = Request::received(args);
    let mut event = Event::Advance;
    loop {
        let (next, action) = request.step(&state, event);
        request = next;
        event = match action {
            Action::Respond(response) => return Ok(response),
            Action::Halt => unreachable!(),
            Action::Continue => Event::Advance,
            Action::FetchHeader { .. } => {
                tokio::time::sleep(Duration::from_millis(2)).await;
                Event::HeaderFetched(Ok(HeaderResponse {
                    result: WrappedHeader {
                        header: Header {
                            last_block_id: Some(BlockId { hash: BlockHash::Sha256([0xaa; 32]) }),
                        },
                    },
                }))
            }
            Action::ProveStep { .. } | Action::ProveSkip { .. } => {
                let now = gauge.inside.fetch_add(1, Ordering::SeqCst) + 1;
                gauge.most.fetch_max(now, Ordering::SeqCst);
                gauge.entered.fetch_add(1, Ordering::SeqCst);
                tokio::time::sleep(Duration::from_millis(30)).await;
                gauge.inside.fetch_sub(1, Ordering::SeqCst);
                Event::Proved(Ok(ProofArtifacts {
                    header: [0xbb; 32],
                    wrapped_proof: WrappedOutput {
                        proof: b"1".to_vec(),
                        common_data: b"2".to_vec(),
                        verifier_data: b"3".to_vec(),
                    },
                }))
            }
            Action::Submit { body, .. } => Event::Submitted(Ok(body)),
        };
    }
}

fn run_five(limit: Option<usize>) -> (usize, usize, Vec<u16>) {
    let gauge = Arc::new(Gauge {
        inside: AtomicUsize::new(0),
        most: AtomicUsize::new(0),
        entered: AtomicUsize::new(0),
    });
    let runtime = tokio::runtime::Builder::new_multi_thread()
        .worker_threads(4)
        .enable_all()
        .build()
        .unwrap();
    let statuses = runtime.block_on(async {
        let handler_gauge = gauge.clone();
        let handler = tower::service_fn(move |args: ProveArgs| handle(args, handler_gauge.clone()));
        let service = ServiceBuilder::new()
            .option_layer(limit.map(ConcurrencyLimitLayer::new))
            .service(handler);
        let mut tasks = Vec::new();
        for i in 0..5u64 {
            let mut service = service.clone();
            tasks.push(tokio::spawn(async move {
                let args = ProveArgs { trusted_height: 100 + i, target_height: 110 + i };
                service.ready().await.unwrap().call(args).await.unwrap()
            }));
        }
        let mut statuses = Vec::new();
        for task in tasks {
            statuses.push(task.await.unwrap().status());
        }
        statuses
    });
    (gauge.most.load(Ordering::SeqCst), gauge.entered.load(Ordering::SeqCst), statuses)
}

#[test]
fn five_simultaneous_requests_prove_one_at_a_time() {
    let limit = Route::Prove.concurrency_limit();
    assert_eq!(limit, Some(1));
    let (most, entered, statuses) = run_five(limit);
    assert_eq!(most, 1);
    assert_eq!(entered, 5);
    assert_eq!(statuses, vec![200; 5]);
}

#[test]
fn without_the_limit_proofs_overlap() {
    let (most, entered, statuses) = run_five(None);
    assert!(most > 1);
    assert_eq!(entered, 5);
    assert_eq!(statuses, vec![200; 5]);
}
