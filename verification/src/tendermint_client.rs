//! Retrieval of the trusted header hash from a consensus RPC endpoint: which
//! URL to ask, how long to wait before asking again, and what the answer
//! must hold.

use crate::error::ServiceError;
use crate::error::ValidationError;
use crate::hash::Hash256;
use vstd::arithmetic::power2::pow2;
use vstd::bits::lemma_u64_pow2_no_overflow;
use vstd::bits::lemma_u64_shl_is_mul;
use vstd::prelude::*;
use vstd::string::StringExecFns;

verus! {

/// How often a failed request is repeated where nothing else is configured.
pub const DEFAULT_RETRIES: usize = 10;

/// The largest retry budget: the wait before the last retry, `2^63` seconds,
/// is the longest that 64 bits hold.
pub const MAX_RETRIES: usize = 64;

/// The hash of a block as a header reports it.
#[derive(Clone, Copy, Debug, PartialEq, Eq)]
pub enum BlockHash {
    /// A SHA-256 hash.
    Sha256(Hash256),
    /// No hash.
    Empty,
}

/// The identifier of a block, as far as this library reads it.
#[derive(Clone, Copy, Debug, PartialEq, Eq)]
pub struct BlockId {
    pub hash: BlockHash,
}

/// A block header, as far as this library reads it.
#[derive(Clone, Copy, Debug, PartialEq, Eq)]
pub struct Header {
    /// The identifier of the block before this one.
    pub last_block_id: Option<BlockId>,
}

/// The `result` member of a header response.
#[derive(Clone, Copy, Debug, PartialEq, Eq)]
pub struct WrappedHeader {
    pub header: Header,
}

/// The answer of the consensus RPC to a header request.
#[derive(Clone, Copy, Debug, PartialEq, Eq)]
pub struct HeaderResponse {
    pub result: WrappedHeader,
}

impl HeaderResponse {
    /// The parent hash that the header carries, if it carries one.
    pub open spec fn parent_hash(self) -> Option<Hash256> {
        match self.result.header.last_block_id {
            Some(id) => match id.hash {
                BlockHash::Sha256(hash) => Some(hash),
                BlockHash::Empty => None,
            },
            None => None,
        }
    }

    /// The hash of the trusted block: the parent hash of its successor's
    /// header.  A header without that link is a failure, never an empty hash.
    pub fn trusted_block_hash(&self) -> (res: Result<Hash256, ServiceError>)
        ensures
            res == match self.parent_hash() {
                Some(hash) => Ok::<Hash256, ServiceError>(hash),
                None => Err::<Hash256, ServiceError>(ServiceError::DataIntegrity),
            },
    {
        match self.result.header.last_block_id {
            Some(id) => match id.hash {
                BlockHash::Sha256(hash) => Ok(hash),
                BlockHash::Empty => Err(ServiceError::DataIntegrity),
            },
            None => Err(ServiceError::DataIntegrity),
        }
    }
}

/// The character that writes the digit `d`.
pub open spec fn digit_char(d: nat) -> char {
    if d == 0 {
        '0'
    } else if d == 1 {
        '1'
    } else if d == 2 {
        '2'
    } else if d == 3 {
        '3'
    } else if d == 4 {
        '4'
    } else if d == 5 {
        '5'
    } else if d == 6 {
        '6'
    } else if d == 7 {
        '7'
    } else if d == 8 {
        '8'
    } else {
        '9'
    }
}

/// `n` in decimal, without leading zeros.
pub open spec fn decimal(n: nat) -> Seq<char>
    decreases n,
{
    if n < 10 {
        seq![digit_char(n)]
    } else {
        decimal(n / 10).push(digit_char(n % 10))
    }
}

fn digit_str(d: u128) -> (s: &'static str)
    requires
        d < 10,
    ensures
        s@ == seq![digit_char(d as nat)],
{
    proof {
        reveal_strlit("0");
        reveal_strlit("1");
        reveal_strlit("2");
        reveal_strlit("3");
        reveal_strlit("4");
        reveal_strlit("5");
        reveal_strlit("6");
        reveal_strlit("7");
        reveal_strlit("8");
        reveal_strlit("9");
    }
    let s = if d == 0 {
        "0"
    } else if d == 1 {
        "1"
    } else if d == 2 {
        "2"
    } else if d == 3 {
        "3"
    } else if d == 4 {
        "4"
    } else if d == 5 {
        "5"
    } else if d == 6 {
        "6"
    } else if d == 7 {
        "7"
    } else if d == 8 {
        "8"
    } else {
        "9"
    };
    assert(s@ =~= seq![digit_char(d as nat)]);
    s
}

/// Appends `n` in decimal to `text`.
pub fn push_decimal(text: &mut String, n: u128)
    ensures
        final(text)@ == old(text)@ + decimal(n as nat),
    decreases n,
{
    if n >= 10 {
        push_decimal(text, n / 10);
    }
    text.append(digit_str(n % 10));
    assert(text@ =~= old(text)@ + decimal(n as nat));
}

/// The route that asks for the header above `height`.
pub open spec fn header_route_text(height: u64) -> Seq<char> {
    "header?height="@ + decimal((height + 1) as nat)
}

/// The route of the header request for the trusted block at `height`.
///
/// The header asked for is the one at `height + 1`: its parent link holds
/// the hash of the block at `height`.
pub fn header_route(height: u64) -> (route: String)
    ensures
        route@ == header_route_text(height),
{
    let mut route = String::from_str("header?height=");
    let above: u128 = height as u128 + 1;
    push_decimal(&mut route, above);
    route
}

/// The URL of `route` below `url`.
pub open spec fn request_url_text(url: Seq<char>, route: Seq<char>) -> Seq<char> {
    url + "/"@ + route
}

/// Joins a base URL and a route.
pub fn request_url(url: &str, route: &str) -> (full: String)
    ensures
        full@ == request_url_text(url@, route@),
{
    let mut full = String::from_str(url);
    full.append("/");
    full.append(route);
    full
}

/// The URL to ask for the hash of the trusted block at `height`.  An empty
/// base URL is rejected.
pub fn trusted_block_hash_url(url: &str, height: u64) -> (res: Result<String, ValidationError>)
    ensures
        url@.len() == 0 ==> res == Err::<String, ValidationError>(ValidationError::EmptyUrl),
        url@.len() > 0 ==> res is Ok && res->Ok_0@ == request_url_text(
            url@,
            header_route_text(height),
        ),
{
    if url.is_empty() {
        Err(ValidationError::EmptyUrl)
    } else {
        let route = header_route(height);
        Ok(request_url(url, route.as_str()))
    }
}

/// How one attempt to reach the consensus RPC ended.
#[derive(Clone, Debug, PartialEq, Eq)]
pub enum Attempt<T> {
    /// The endpoint answered with this payload.
    Answered(T),
    /// The endpoint could not be reached.
    TransportFailure,
}

/// What to do after an attempt.
#[derive(Clone, Debug, PartialEq, Eq)]
pub enum RetryAction<T> {
    /// Hand this payload to the caller.
    Return(T),
    /// Wait this many seconds, then attempt again.
    RetryAfter(u64),
    /// Give up: the retry budget is spent.
    GiveUp,
}

/// The progress of one fetch: how many attempts have failed, out of how many
/// retries allowed.
#[derive(Clone, Copy, Debug, PartialEq, Eq, Structural)]
pub struct RetryState {
    retries: usize,
    failures: usize,
}

/// The seconds to wait before retry number `n`, counted from zero.
pub open spec fn backoff_secs(n: nat) -> nat {
    pow2(n)
}

impl RetryState {
    /// The number of retries allowed.
    pub closed spec fn budget(self) -> nat {
        self.retries as nat
    }

    /// The number of attempts that have failed so far.
    pub closed spec fn failed(self) -> nat {
        self.failures as nat
    }

    /// No more retries have been granted than the budget allows, and the
    /// budget is one whose waits fit in 64 bits.
    pub open spec fn wf(self) -> bool {
        self.failed() <= self.budget() <= MAX_RETRIES
    }

    #[verifier::type_invariant]
    spec fn inv(self) -> bool {
        self.wf()
    }

    /// The state before the first attempt, or nothing where the budget is
    /// larger than [`MAX_RETRIES`].
    pub fn new(retries: usize) -> (res: Option<RetryState>)
        ensures
            res is Some <==> retries <= MAX_RETRIES,
            res matches Some(state) ==> state.budget() == retries && state.failed() == 0
                && state.wf(),
    {
        if retries <= MAX_RETRIES {
            Some(RetryState { retries, failures: 0 })
        } else {
            None
        }
    }

    /// The state and the action that follow an attempt.
    pub open spec fn after<T>(self, attempt: Attempt<T>) -> (RetryState, RetryAction<T>) {
        match attempt {
            Attempt::Answered(payload) => (self, RetryAction::Return(payload)),
            Attempt::TransportFailure => if self.failed() < self.budget() {
                (self.with_failure(), RetryAction::RetryAfter(backoff_secs(self.failed()) as u64))
            } else {
                (self, RetryAction::GiveUp)
            },
        }
    }

    /// This state with one more failed attempt.
    pub closed spec fn with_failure(self) -> RetryState {
        RetryState { retries: self.retries, failures: (self.failures + 1) as usize }
    }

    /// Counting a failure changes the count alone.
    pub proof fn lemma_with_failure(self)
        requires
            self.failed() < self.budget(),
            self.wf(),
        ensures
            self.with_failure().failed() == self.failed() + 1,
            self.with_failure().budget() == self.budget(),
            self.with_failure().wf(),
    {
    }

    pub fn retries(&self) -> (n: usize)
        ensures
            n == self.budget(),
            self.wf(),
    {
        proof {
            use_type_invariant(self);
        }
        self.retries
    }

    pub fn failures(&self) -> (n: usize)
        ensures
            n == self.failed(),
            self.wf(),
    {
        proof {
            use_type_invariant(self);
        }
        self.failures
    }

    /// Decides what follows an attempt.
    ///
    /// An answer is returned at once.  A transport failure is followed by a
    /// wait of `2^n` seconds and another attempt, where `n` counts the
    /// failures before it, until the budget is spent; then the fetch gives
    /// up.
    pub fn next<T>(self, attempt: Attempt<T>) -> (res: (RetryState, RetryAction<T>))
        ensures
            res == self.after(attempt),
            res.0.wf(),
            res.0.budget() == self.budget(),
            res.0.failed() == if res.1 is RetryAfter {
                self.failed() + 1
            } else {
                self.failed()
            },
            res.1 matches RetryAction::RetryAfter(secs) ==> secs == backoff_secs(self.failed()),
    {
        proof {
            use_type_invariant(&self);
        }
        match attempt {
            Attempt::Answered(payload) => (self, RetryAction::Return(payload)),
            Attempt::TransportFailure => {
                if self.failures < self.retries {
                    let shift: u64 = self.failures as u64;
                    proof {
                        lemma_u64_pow2_no_overflow(shift as nat);
                        lemma_u64_shl_is_mul(1, shift);
                    }
                    let secs: u64 = 1u64 << shift;
                    let state = RetryState { retries: self.retries, failures: self.failures + 1 };
                    (state, RetryAction::RetryAfter(secs))
                } else {
                    (self, RetryAction::GiveUp)
                }
            },
        }
    }
}

/// What a fetch did over a run of attempts.
pub struct FetchTrace<T> {
    /// The waits between the attempts, in seconds, in the order they were
    /// made.
    pub waits: Seq<u64>,
    /// The number of attempts made.
    pub attempts: nat,
    /// How the fetch ended, if it did.
    pub outcome: Option<Result<T, ServiceError>>,
}

/// The trace of a fetch that starts in `state` and whose attempts end as
/// `attempts` says, one after the other.  The fetch stops at the first answer
/// and when it gives up; attempts listed after that are never made.
pub open spec fn run<T>(state: RetryState, attempts: Seq<Attempt<T>>) -> FetchTrace<T>
    decreases attempts.len(),
{
    if attempts.len() == 0 {
        FetchTrace { waits: Seq::empty(), attempts: 0, outcome: None }
    } else {
        match state.after(attempts[0]) {
            (_, RetryAction::Return(payload)) => FetchTrace {
                waits: Seq::empty(),
                attempts: 1,
                outcome: Some(Ok(payload)),
            },
            (_, RetryAction::GiveUp) => FetchTrace {
                waits: Seq::empty(),
                attempts: 1,
                outcome: Some(Err(ServiceError::TransientFetch)),
            },
            (next, RetryAction::RetryAfter(secs)) => {
                let rest = run(next, attempts.drop_first());
                FetchTrace {
                    waits: seq![secs] + rest.waits,
                    attempts: rest.attempts + 1,
                    outcome: rest.outcome,
                }
            },
        }
    }
}

/// `n` transport failures.
pub open spec fn failures<T>(n: nat) -> Seq<Attempt<T>> {
    Seq::new(n, |i: int| Attempt::TransportFailure)
}

proof fn lemma_run_failures_then_answer<T>(state: RetryState, n: nat, payload: T)
    requires
        state.wf(),
        state.failed() + n <= state.budget(),
    ensures
        run(state, failures::<T>(n).push(Attempt::Answered(payload))).waits.len() == n,
        forall|i: int|
            0 <= i < n ==> run(state, failures::<T>(n).push(Attempt::Answered(payload))).waits[i]
                == backoff_secs(state.failed() + i as nat),
        run(state, failures::<T>(n).push(Attempt::Answered(payload))).attempts == n + 1,
        run(state, failures::<T>(n).push(Attempt::Answered(payload))).outcome == Some(
            Ok::<T, ServiceError>(payload),
        ),
    decreases n,
{
    let attempts = failures::<T>(n).push(Attempt::Answered(payload));
    if n > 0 {
        let k = state.failed();
        state.lemma_with_failure();
        lemma_u64_pow2_no_overflow(k);
        let next = state.with_failure();
        let shorter = failures::<T>((n - 1) as nat).push(Attempt::Answered(payload));
        assert(attempts.drop_first() =~= shorter);
        lemma_run_failures_then_answer(next, (n - 1) as nat, payload);
        let rest = run(next, shorter);
        let trace = run(state, attempts);
        assert(trace.waits == seq![backoff_secs(k) as u64] + rest.waits);
        assert forall|i: int| 0 <= i < n implies trace.waits[i] == backoff_secs(k + i as nat) by {
            if i > 0 {
                assert(trace.waits[i] == rest.waits[i - 1]);
            }
        }
    }
}

proof fn lemma_run_failures<T>(state: RetryState, n: nat)
    requires
        state.wf(),
        state.failed() + n == state.budget() + 1,
    ensures
        run(state, failures::<T>(n)).waits.len() == n - 1,
        forall|i: int|
            0 <= i < n - 1 ==> run(state, failures::<T>(n)).waits[i] == backoff_secs(
                state.failed() + i as nat,
            ),
        run(state, failures::<T>(n)).attempts == n,
        run(state, failures::<T>(n)).outcome == Some(
            Err::<T, ServiceError>(ServiceError::TransientFetch),
        ),
    decreases n,
{
    let attempts = failures::<T>(n);
    if n > 1 {
        let k = state.failed();
        state.lemma_with_failure();
        lemma_u64_pow2_no_overflow(k);
        let next = state.with_failure();
        let shorter = failures::<T>((n - 1) as nat);
        assert(attempts.drop_first() =~= shorter);
        lemma_run_failures::<T>(next, (n - 1) as nat);
        let rest = run(next, shorter);
        let trace = run(state, attempts);
        assert(trace.waits == seq![backoff_secs(k) as u64] + rest.waits);
        assert forall|i: int| 0 <= i < n - 1 implies trace.waits[i] == backoff_secs(
            k + i as nat,
        ) by {
            if i > 0 {
                assert(trace.waits[i] == rest.waits[i - 1]);
            }
        }
    }
}

/// A fetch whose first `n` attempts fail in transport and whose next attempt
/// is answered waits `1, 2, 4, ..., 2^(n-1)` seconds between the attempts, in
/// this order, and returns the answer of attempt `n + 1`, provided that `n`
/// is within the retry budget.
pub proof fn lemma_backoff_until_answer<T>(state: RetryState, n: nat, payload: T)
    requires
        state.wf(),
        state.failed() == 0,
        n <= state.budget(),
    ensures
        ({
            let trace = run(state, failures::<T>(n).push(Attempt::Answered(payload)));
            &&& trace.waits.len() == n
            &&& forall|i: int| 0 <= i < n ==> #[trigger] trace.waits[i] == pow2(i as nat)
            &&& trace.attempts == n + 1
            &&& trace.outcome == Some(Ok::<T, ServiceError>(payload))
        }),
{
    lemma_run_failures_then_answer(state, n, payload);
}

/// A fetch in which every attempt fails in transport makes one attempt and
/// as many retries as its budget holds, waits `1, 2, 4, ...` seconds before
/// the retries, and then fails for good.
pub proof fn lemma_backoff_until_exhausted<T>(state: RetryState)
    requires
        state.wf(),
        state.failed() == 0,
    ensures
        ({
            let trace = run(state, failures::<T>(state.budget() + 1));
            &&& trace.waits.len() == state.budget()
            &&& forall|i: int|
                0 <= i < state.budget() ==> #[trigger] trace.waits[i] == pow2(i as nat)
            &&& trace.attempts == state.budget() + 1
            &&& trace.outcome == Some(Err::<T, ServiceError>(ServiceError::TransientFetch))
        }),
{
    lemma_run_failures::<T>(state, state.budget() + 1);
}

} // verus!
