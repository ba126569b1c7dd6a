//! The retry policy of a fetch: which outcome of an attempt ends the fetch,
//! and how long to wait before the next attempt.
use vstd::prelude::*;

verus! {

/// What one attempt of an HTTP GET came back with.
#[derive(Clone, Copy, Debug, PartialEq, Eq, Structural)]
pub enum Outcome {
    /// A success status; the body is available.
    Success,
    /// Status 429: the server asks to slow down.
    RateLimited,
    /// The transport failed (connection error, timeout).
    Transient,
    /// Any other status that is not a success.
    HttpError,
}

/// What the fetch does after an attempt.
#[derive(Clone, Copy, Debug, PartialEq, Eq, Structural)]
pub enum FetchStep {
    /// Hand back the body of the successful attempt.
    Done,
    /// Hand back the error of the last attempt.
    Fail,
    /// Wait this many seconds, then attempt again.
    Wait(u64),
}

pub const MAX_DELAY_SECS: u64 = 300;

/// Retry bookkeeping of one fetch: retries made so far and the delay that
/// the next retry waits.
#[derive(Clone, Copy, Debug)]
pub struct RetryState {
    pub retries: u32,
    pub delay_secs: u64,
}

pub open spec fn pow2(n: nat) -> nat
    decreases n,
{
    if n == 0 {
        1
    } else {
        2 * pow2((n - 1) as nat)
    }
}

pub open spec fn min_nat(a: nat, b: nat) -> nat {
    if a <= b {
        a
    } else {
        b
    }
}

/// The delay waited before retry number `r + 1`: `min(300, 2^r)` seconds.
pub open spec fn backoff(r: nat) -> nat {
    min_nat(MAX_DELAY_SECS as nat, pow2(r))
}

impl RetryState {
    pub open spec fn wf(&self) -> bool {
        self.delay_secs as nat == backoff(self.retries as nat)
    }

    /// The state of a fetch before its first attempt.
    pub fn new() -> (r: RetryState)
        ensures
            r.retries == 0,
            r.delay_secs == 1,
            r.wf(),
    {
        RetryState { retries: 0, delay_secs: 1 }
    }
}

/// Whether an outcome is worth another attempt.
pub open spec fn retryable(o: Outcome) -> bool {
    o == Outcome::RateLimited || o == Outcome::Transient
}

/// The step after an attempt with outcome `o`, made with `retries` retries
/// behind it, under a budget of `max_retries` retries.
pub open spec fn step_of(retries: nat, o: Outcome, max_retries: nat) -> FetchStep {
    match o {
        Outcome::Success => FetchStep::Done,
        Outcome::HttpError => FetchStep::Fail,
        _ => if retries >= max_retries {
            FetchStep::Fail
        } else {
            FetchStep::Wait(backoff(retries) as u64)
        },
    }
}

proof fn lemma_backoff_next(r: nat)
    ensures
        backoff(r + 1) == min_nat(MAX_DELAY_SECS as nat, 2 * backoff(r)),
        1 <= backoff(r) <= MAX_DELAY_SECS,
    decreases r,
{
    if r > 0 {
        lemma_backoff_next((r - 1) as nat);
    }
    assert(pow2(r + 1) == 2 * pow2(r));
}

/// Decides what follows an attempt with outcome `outcome`. On a retry the
/// state counts it and doubles the delay, up to 300 seconds.
pub fn next_fetch_step(state: &mut RetryState, outcome: Outcome, max_retries: u32) -> (r: FetchStep)
    requires
        old(state).wf(),
    ensures
        r == step_of(old(state).retries as nat, outcome, max_retries as nat),
        final(state).wf(),
        r is Wait ==> final(state).retries == old(state).retries + 1,
        !(r is Wait) ==> *final(state) == *old(state),
{
    match outcome {
        Outcome::Success => FetchStep::Done,
        Outcome::HttpError => FetchStep::Fail,
        _ => {
            if state.retries >= max_retries {
                FetchStep::Fail
            } else {
                proof {
                    lemma_backoff_next(state.retries as nat);
                }
                let wait = state.delay_secs;
                state.delay_secs = if wait * 2 < MAX_DELAY_SECS {
                    wait * 2
                } else {
                    MAX_DELAY_SECS
                };
                state.retries = state.retries + 1;
                FetchStep::Wait(wait)
            }
        },
    }
}

/// How a run of attempts ended.
pub enum RunEnd {
    Succeeded,
    Failed,
    /// The outcomes ran out before the fetch ended.
    Unfinished,
}

/// What a fetch does against a transport that answers the attempts with
/// `outcomes` in turn, starting with `retries` retries behind it: how it
/// ends, the delays it waits, and the retries it has made at the end.
pub open spec fn run(retries: nat, outcomes: Seq<Outcome>, max_retries: nat) -> (
    RunEnd,
    Seq<nat>,
    nat,
)
    decreases outcomes.len(),
{
    if outcomes.len() == 0 {
        (RunEnd::Unfinished, Seq::empty(), retries)
    } else {
        match step_of(retries, outcomes[0], max_retries) {
            FetchStep::Done => (RunEnd::Succeeded, Seq::empty(), retries),
            FetchStep::Fail => (RunEnd::Failed, Seq::empty(), retries),
            FetchStep::Wait(d) => {
                let rest = run(retries + 1, outcomes.drop_first(), max_retries);
                (rest.0, seq![d as nat] + rest.1, rest.2)
            },
        }
    }
}

/// `n` rate-limited answers followed by the answers `tail`.
pub open spec fn rate_limited_then(n: nat, tail: Seq<Outcome>) -> Seq<Outcome> {
    Seq::new(n, |i: int| Outcome::RateLimited) + tail
}

/// The delays `backoff(from)`, ..., `backoff(to - 1)`.
pub open spec fn delays_between(from: nat, to: nat) -> Seq<nat> {
    Seq::new((to - from) as nat, |i: int| backoff((from + i) as nat))
}

proof fn lemma_run_rate_limited(r: nat, n: nat, tail: Seq<Outcome>, max: nat)
    requires
        r <= n <= max,
        tail.len() > 0,
    ensures
        run(r, rate_limited_then((n - r) as nat, tail), max) == {
            let rest = run(n, tail, max);
            (rest.0, delays_between(r, n) + rest.1, rest.2)
        },
    decreases n - r,
{
    let os = rate_limited_then((n - r) as nat, tail);
    if r == n {
        assert(os =~= tail);
        assert(delays_between(r, n) + run(n, tail, max).1 =~= run(n, tail, max).1);
    } else {
        lemma_backoff_next(r);
        assert(os[0] == Outcome::RateLimited);
        assert(os.drop_first() =~= rate_limited_then((n - (r + 1)) as nat, tail));
        lemma_run_rate_limited(r + 1, n, tail, max);
        assert(seq![backoff(r) as u64 as nat] + delays_between(r + 1, n) =~= delays_between(r, n));
    }
}

/// A transport that is rate-limited on the first `n` attempts and succeeds on
/// the next, with `n <= max_retries`: the fetch succeeds after exactly `n`
/// retries, having waited 1, 2, 4, ... seconds: `min(300, 2^i)` before
/// retry `i + 1`.
pub proof fn lemma_succeeds_after_rate_limits(n: nat, max_retries: nat, tail: Seq<Outcome>)
    requires
        n <= max_retries,
    ensures
        ({
            let (end, delays, retries) = run(
                0,
                rate_limited_then(n, seq![Outcome::Success] + tail),
                max_retries,
            );
            &&& end == RunEnd::Succeeded
            &&& retries == n
            &&& delays.len() == n
            &&& forall|i: int| 0 <= i < n ==> #[trigger] delays[i] == min_nat(300, pow2(i as nat))
        }),
{
    let t = seq![Outcome::Success] + tail;
    lemma_run_rate_limited(0, n, t, max_retries);
    assert(t[0] == Outcome::Success);
    assert(run(n, t, max_retries).1 =~= Seq::<nat>::empty());
    assert(delays_between(0, n) + Seq::<nat>::empty() =~= delays_between(0, n));
}

/// A transport that is always rate-limited: with a budget of `max_retries`
/// retries the fetch fails after exactly `max_retries` retries, that is after
/// `max_retries + 1` attempts, having waited `min(300, 2^i)` seconds before
/// retry `i + 1` and not at all after the last attempt.
pub proof fn lemma_fails_when_always_rate_limited(max_retries: nat, tail: Seq<Outcome>)
    ensures
        ({
            let (end, delays, retries) = run(
                0,
                rate_limited_then(max_retries + 1, tail),
                max_retries,
            );
            &&& end == RunEnd::Failed
            &&& retries == max_retries
            &&& delays.len() == max_retries
            &&& forall|i: int|
                0 <= i < max_retries ==> #[trigger] delays[i] == min_nat(300, pow2(i as nat))
        }),
{
    let t = seq![Outcome::RateLimited] + tail;
    assert(rate_limited_then(max_retries + 1, tail) =~= rate_limited_then(max_retries, t));
    lemma_run_rate_limited(0, max_retries, t, max_retries);
    assert(t[0] == Outcome::RateLimited);
    assert(run(max_retries, t, max_retries).1 =~= Seq::<nat>::empty());
    assert(delays_between(0, max_retries) + Seq::<nat>::empty() =~= delays_between(0, max_retries));
}

} // verus!
