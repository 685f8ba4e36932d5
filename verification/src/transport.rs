//! Resilient transport: the bounded exponential-backoff retry discipline
//! applied to every outbound provider call. The decision logic lives here,
//! fully verified; the unverified shell performs one HTTP attempt, reports
//! its outcome, and obeys the decision handed back.
use vstd::prelude::*;

verus! {

/// How an outbound call ultimately failed, the only distinction callers see.
#[derive(Clone, Copy, Debug, PartialEq, Eq, Structural)]
pub enum TransportError {
    /// Transient network or server trouble that outlived the retry budget.
    Transient,
    /// The upstream definitively said no; retrying cannot help.
    Rejected,
    /// The response arrived but its body did not parse.
    Malformed,
}

/// Process-wide retry policy: immutable after construction, applied per
/// call, carrying no cross-call state.
#[derive(Clone, Copy, Debug, PartialEq, Eq, Structural)]
pub struct RetryPolicy {
    /// Retries allowed after the first attempt.
    pub max_retries: u32,
    /// Delay before the first retry; it doubles with every further retry.
    pub base_delay_ms: u64,
}

/// Classification of a single attempt of an outbound call.
#[derive(Clone, Copy, Debug, PartialEq, Eq, Structural)]
pub enum AttemptOutcome {
    /// A well-formed success response arrived.
    Success,
    /// Connection failure, timeout, or a server-side (5xx) response.
    Transient,
    /// A definitive upstream rejection (4xx-class response).
    Rejected,
    /// A success status whose body did not parse.
    Malformed,
}

/// What the caller of the transport must do after one attempt.
#[derive(Clone, Copy, Debug, PartialEq, Eq, Structural)]
pub enum RetryDecision {
    /// Hand the response to the caller.
    Deliver,
    /// Wait this many milliseconds, then attempt again.
    RetryAfter(u64),
    /// Give up with this error.
    Fail(TransportError),
}

/// Outcome of driving one call to completion: on success the index of the
/// attempt that succeeded, and the number of attempts that were made.
#[derive(Debug)]
pub struct SendReport {
    pub result: Result<u32, TransportError>,
    pub attempts: u32,
}

impl RetryPolicy {
    /// Bounds under which every backoff computation fits in its type.
    pub open spec fn wf(self) -> bool {
        self.max_retries <= 16 && 1 <= self.base_delay_ms <= 60000
    }

    pub fn new(max_retries: u32, base_delay_ms: u64) -> (p: RetryPolicy)
        requires
            max_retries <= 16,
            1 <= base_delay_ms <= 60000,
        ensures
            p.max_retries == max_retries,
            p.base_delay_ms == base_delay_ms,
            p.wf(),
    {
        RetryPolicy { max_retries, base_delay_ms }
    }

    /// The policy the service runs with: three retries on a one-second base.
    pub fn standard() -> (p: RetryPolicy)
        ensures
            p.max_retries == 3,
            p.base_delay_ms == 1000,
            p.wf(),
    {
        RetryPolicy { max_retries: 3, base_delay_ms: 1000 }
    }
}

/// `2^n`, the backoff growth factor.
pub open spec fn spec_pow2(n: nat) -> nat
    decreases n,
{
    if n == 0 {
        1nat
    } else {
        2 * spec_pow2((n - 1) as nat)
    }
}

proof fn lemma_pow2_pos(n: nat)
    ensures
        spec_pow2(n) >= 1,
    decreases n,
{
    if n > 0 {
        lemma_pow2_pos((n - 1) as nat);
    }
}

proof fn lemma_pow2_mono(n: nat, m: nat)
    requires
        n <= m,
    ensures
        spec_pow2(n) <= spec_pow2(m),
    decreases m - n,
{
    if n < m {
        lemma_pow2_mono(n, (m - 1) as nat);
        lemma_pow2_pos((m - 1) as nat);
    }
}

proof fn lemma_pow2_bound(n: nat)
    requires
        n <= 16,
    ensures
        spec_pow2(n) <= 65536,
{
    lemma_pow2_mono(n, 16);
    reveal_with_fuel(spec_pow2, 17);
    assert(spec_pow2(16) == 65536);
}

/// Classifies one attempt from what the shell observed: whether a response
/// arrived at all, its status, and whether a success body parsed. A 2xx with
/// a well-formed body succeeds; 5xx and connection trouble are transient;
/// every other response is a definitive rejection.
pub open spec fn spec_classify(connected: bool, status: u16, parsed: bool) -> AttemptOutcome {
    if !connected {
        AttemptOutcome::Transient
    } else if 200 <= status < 300 {
        if parsed {
            AttemptOutcome::Success
        } else {
            AttemptOutcome::Malformed
        }
    } else if 300 <= status < 500 {
        AttemptOutcome::Rejected
    } else {
        AttemptOutcome::Transient
    }
}

pub fn classify_attempt(connected: bool, status: u16, parsed: bool) -> (o: AttemptOutcome)
    ensures
        o == spec_classify(connected, status, parsed),
{
    if !connected {
        AttemptOutcome::Transient
    } else if 200 <= status && status < 300 {
        if parsed {
            AttemptOutcome::Success
        } else {
            AttemptOutcome::Malformed
        }
    } else if 300 <= status && status < 500 {
        AttemptOutcome::Rejected
    } else {
        AttemptOutcome::Transient
    }
}

/// Delay before the retry that follows attempt number `attempt` (counted
/// from zero): the base delay doubled `attempt` times.
pub fn backoff_delay(policy: &RetryPolicy, attempt: u32) -> (d: u64)
    requires
        policy.wf(),
        attempt <= 16,
    ensures
        d == policy.base_delay_ms * spec_pow2(attempt as nat),
{
    let mut d: u64 = policy.base_delay_ms;
    let mut i: u32 = 0;
    proof {
        assert(spec_pow2(0) == 1);
    }
    while i < attempt
        invariant
            policy.wf(),
            i <= attempt <= 16,
            d == policy.base_delay_ms * spec_pow2(i as nat),
        decreases attempt - i,
    {
        proof {
            lemma_pow2_bound((i + 1) as nat);
            assert(spec_pow2((i + 1) as nat) == 2 * spec_pow2(i as nat));
            assert(2 * (policy.base_delay_ms * spec_pow2(i as nat)) == policy.base_delay_ms
                * spec_pow2((i + 1) as nat) && policy.base_delay_ms * spec_pow2((i + 1) as nat)
                <= 60000 * 65536) by (nonlinear_arith)
                requires
                    policy.base_delay_ms <= 60000,
                    spec_pow2((i + 1) as nat) == 2 * spec_pow2(i as nat),
                    spec_pow2((i + 1) as nat) <= 65536,
            ;
        }
        d = d * 2;
        i = i + 1;
    }
    d
}

/// The transport's next step after attempt number `attempt` (counted from
/// zero) came back with `outcome`: deliver on success, fail immediately on a
/// rejection or a malformed body, and retry after an exponentially grown
/// delay on transient trouble until the budget is spent.
pub fn next_action(policy: &RetryPolicy, attempt: u32, outcome: AttemptOutcome) -> (d:
    RetryDecision)
    requires
        policy.wf(),
        attempt <= policy.max_retries,
    ensures
        outcome is Success ==> d == RetryDecision::Deliver,
        outcome is Rejected ==> d == RetryDecision::Fail(TransportError::Rejected),
        outcome is Malformed ==> d == RetryDecision::Fail(TransportError::Malformed),
        outcome is Transient && attempt < policy.max_retries ==> (d matches RetryDecision::RetryAfter(ms)
            && ms == policy.base_delay_ms * spec_pow2(attempt as nat)),
        outcome is Transient && attempt == policy.max_retries ==> d == RetryDecision::Fail(
            TransportError::Transient,
        ),
{
    match outcome {
        AttemptOutcome::Success => RetryDecision::Deliver,
        AttemptOutcome::Rejected => RetryDecision::Fail(TransportError::Rejected),
        AttemptOutcome::Malformed => RetryDecision::Fail(TransportError::Malformed),
        AttemptOutcome::Transient => {
            if attempt < policy.max_retries {
                RetryDecision::RetryAfter(backoff_delay(policy, attempt))
            } else {
                RetryDecision::Fail(TransportError::Transient)
            }
        },
    }
}

/// Replays the retry discipline against a pre-recorded sequence of per-
/// attempt outcomes (`outcomes[i]` is what attempt `i` would observe) and
/// reports what a caller of `send` would see: the first decisive outcome
/// wins, retries happen only on transient trouble, and at most
/// `max_retries + 1` attempts are ever made.
pub fn send_with_outcomes(policy: &RetryPolicy, outcomes: &Vec<AttemptOutcome>) -> (r: SendReport)
    requires
        policy.wf(),
        outcomes@.len() == policy.max_retries + 1,
    ensures
        1 <= r.attempts <= policy.max_retries + 1,
        r.result matches Ok(i) ==> i + 1 == r.attempts && outcomes@[i as int] is Success && (forall|
            j: int,
        | 0 <= j < i ==> outcomes@[j] is Transient),
        r.result == Err::<u32, TransportError>(TransportError::Rejected) ==> outcomes@[r.attempts
            - 1] is Rejected && (forall|j: int| 0 <= j < r.attempts - 1 ==> outcomes@[j] is Transient),
        r.result == Err::<u32, TransportError>(TransportError::Malformed) ==> outcomes@[r.attempts
            - 1] is Malformed && (forall|j: int| 0 <= j < r.attempts - 1 ==> outcomes@[j] is Transient),
        r.result == Err::<u32, TransportError>(TransportError::Transient) ==> r.attempts
            == policy.max_retries + 1 && (forall|j: int|
            0 <= j < r.attempts ==> outcomes@[j] is Transient),
{
    let max = policy.max_retries;
    let mut i: u32 = 0;
    loop
        invariant
            policy.wf(),
            max == policy.max_retries,
            i <= max,
            outcomes@.len() == max + 1,
            forall|j: int| 0 <= j < i ==> outcomes@[j] is Transient,
        decreases max - i,
    {
        match outcomes[i as usize] {
            AttemptOutcome::Success => {
                return SendReport { result: Ok(i), attempts: i + 1 };
            },
            AttemptOutcome::Rejected => {
                return SendReport {
                    result: Err(TransportError::Rejected),
                    attempts: i + 1,
                };
            },
            AttemptOutcome::Malformed => {
                return SendReport {
                    result: Err(TransportError::Malformed),
                    attempts: i + 1,
                };
            },
            AttemptOutcome::Transient => {
                if i == max {
                    return SendReport {
                        result: Err(TransportError::Transient),
                        attempts: i + 1,
                    };
                }
                i = i + 1;
            },
        }
    }
}

} // verus!
