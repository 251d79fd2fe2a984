//! The retry policy: which failures are transient, how long to wait before
//! the next attempt, and what a whole logical call comes to.
use vstd::prelude::*;

use crate::client::RetryOptions;
use crate::error::ApiError;

verus! {

pub open spec fn two_pow(n: nat) -> nat
    decreases n,
{
    if n == 0 {
        1
    } else {
        2 * two_pow((n - 1) as nat)
    }
}

/// The delay owed after the failure of attempt `attempt`: `base * 2^attempt`.
pub open spec fn backoff_spec(attempt: nat, base_delay_ms: nat) -> nat {
    base_delay_ms * two_pow(attempt)
}

/// `n`, or the largest `u64` where `n` does not fit.
pub open spec fn saturate(n: nat) -> u64 {
    if n > u64::MAX {
        u64::MAX
    } else {
        n as u64
    }
}

/// Which classified errors are worth another attempt (transport errors aside).
pub open spec fn retryable_spec(e: ApiError) -> bool {
    match e {
        ApiError::TooManyRequests(t) => t.user_remaining > 0,
        ApiError::InternalServer(_) => true,
        _ => false,
    }
}

/// What the executor does after a failed attempt.
#[derive(Clone, Copy, Debug, PartialEq, Eq, Structural)]
pub enum RetryStep {
    /// Wait this long, then make the next attempt.
    Retry { delay_ms: u64 },
    /// Surface the error as it is.
    GiveUp,
}

/// The decision after attempt `attempt` failed with an error that is
/// `retryable` or not.
pub open spec fn step_spec(policy: Option<RetryOptions>, attempt: nat, retryable: bool) -> RetryStep {
    match policy {
        None => RetryStep::GiveUp,
        Some(p) => if attempt < p.max_retries && retryable {
            RetryStep::Retry { delay_ms: saturate(backoff_spec(attempt, p.base_delay_ms as nat)) }
        } else {
            RetryStep::GiveUp
        },
    }
}

pub proof fn lemma_two_pow_grows(i: nat, j: nat)
    requires
        i <= j,
    ensures
        two_pow(i) <= two_pow(j),
        two_pow(i) >= 1,
    decreases j,
{
    if j > i {
        lemma_two_pow_grows(i, (j - 1) as nat);
    } else if i > 0 {
        lemma_two_pow_grows((i - 1) as nat, (i - 1) as nat);
    }
}

pub proof fn lemma_backoff_grows(i: nat, j: nat, base: nat)
    requires
        i <= j,
    ensures
        backoff_spec(i, base) <= backoff_spec(j, base),
{
    lemma_two_pow_grows(i, j);
    assert(base * two_pow(i) <= base * two_pow(j)) by (nonlinear_arith)
        requires
            two_pow(i) <= two_pow(j),
    ;
}

/// The delay before the attempt that follows attempt `retries`:
/// `base_delay_ms * 2^retries`, held at `u64::MAX` where it would not fit.
pub fn exponential_backoff(retries: u32, base_delay_ms: u64) -> (r: u64)
    ensures
        r == saturate(backoff_spec(retries as nat, base_delay_ms as nat)),
{
    let mut delay: u64 = base_delay_ms;
    let mut i: u32 = 0;
    assert(backoff_spec(0, base_delay_ms as nat) == base_delay_ms) by {
        assert(two_pow(0) == 1);
    }
    while i < retries && delay < u64::MAX
        invariant
            i <= retries,
            delay == saturate(backoff_spec(i as nat, base_delay_ms as nat)),
        decreases retries - i,
    {
        assert(backoff_spec((i + 1) as nat, base_delay_ms as nat) == 2 * backoff_spec(
            i as nat,
            base_delay_ms as nat,
        )) by (nonlinear_arith)
            requires
                two_pow((i + 1) as nat) == 2 * two_pow(i as nat),
        ;
        if delay > u64::MAX / 2 {
            delay = u64::MAX;
        } else {
            delay = delay * 2;
        }
        i = i + 1;
    }
    proof {
        if i < retries {
            lemma_backoff_grows(i as nat, retries as nat, base_delay_ms as nat);
        }
    }
    delay
}

/// Whether a failure is transient: a rate limit with quota left, any server
/// error, or a transport error that is a timeout, a failed connection or a
/// failure to send the request.
pub fn is_retryable_error(error: &ApiError) -> (r: bool)
    ensures
        !error.is_transport() ==> r == retryable_spec(*error),
{
    match error {
        ApiError::TooManyRequests(err) => err.user_remaining > 0,
        ApiError::InternalServer(_) => true,
        ApiError::Reqwest(req_err) => req_err.is_timeout() || req_err.is_connect()
            || req_err.is_request(),
        _ => false,
    }
}

/// The decision after attempt `attempt` (counted from 0) failed with `error`.
pub fn next_step(policy: &Option<RetryOptions>, attempt: u32, error: &ApiError) -> (r: RetryStep)
    ensures
        !error.is_transport() ==> r == step_spec(*policy, attempt as nat, retryable_spec(*error)),
        r == step_spec(*policy, attempt as nat, outcome_retryable(*error, true)) || r
            == step_spec(*policy, attempt as nat, outcome_retryable(*error, false)),
{
    match policy {
        None => RetryStep::GiveUp,
        Some(p) => {
            if attempt < p.max_retries && is_retryable_error(error) {
                RetryStep::Retry { delay_ms: exponential_backoff(attempt, p.base_delay_ms) }
            } else {
                RetryStep::GiveUp
            }
        },
    }
}

/// Whether a failed attempt is worth another: the library's own judgement,
/// or, for a transport error, whether the HTTP client called it `transient`.
pub open spec fn outcome_retryable(e: ApiError, transient: bool) -> bool {
    if e.is_transport() {
        transient
    } else {
        retryable_spec(e)
    }
}

/// The course of one logical call whose physical attempts meet `outcomes` in
/// turn (`None`: a success), taken up at attempt `attempt`: the number of
/// attempts made, the waits between them in order, and the error surfaced
/// (`None` on success). `transient[i]` is what the HTTP client tells of a
/// transport error met at attempt `i`.
pub open spec fn call_course(
    policy: Option<RetryOptions>,
    outcomes: Seq<Option<ApiError>>,
    transient: Seq<bool>,
    attempt: nat,
) -> (nat, Seq<u64>, Option<ApiError>)
    decreases outcomes.len() - attempt,
{
    if attempt >= outcomes.len() {
        (attempt, Seq::empty(), None)
    } else {
        match outcomes[attempt as int] {
            None => (attempt + 1, Seq::empty(), None),
            Some(e) => match step_spec(
                policy,
                attempt,
                outcome_retryable(e, transient[attempt as int]),
            ) {
                RetryStep::GiveUp => (attempt + 1, Seq::empty(), Some(e)),
                RetryStep::Retry { delay_ms } => {
                    let rest = call_course(policy, outcomes, transient, attempt + 1);
                    (rest.0, seq![delay_ms] + rest.1, rest.2)
                },
            },
        }
    }
}

/// The sum of the waits.
pub open spec fn total_wait(waits: Seq<u64>) -> nat
    decreases waits.len(),
{
    if waits.len() == 0 {
        0
    } else {
        total_wait(waits.drop_last()) + waits.last() as nat
    }
}

/// The waits `d * 2^i` for `i` from `from` up to `to`, each held at
/// `u64::MAX`.
pub open spec fn doubling_waits(d: nat, from: nat, to: nat) -> Seq<u64> {
    Seq::new((to - from) as nat, |i: int| saturate(backoff_spec((from + i) as nat, d)))
}

proof fn lemma_recovers_from(
    policy: RetryOptions,
    outcomes: Seq<Option<ApiError>>,
    transient: Seq<bool>,
    n: nat,
    k: nat,
)
    requires
        k <= n <= policy.max_retries,
        outcomes.len() > n,
        forall|i: int| 0 <= i < n ==> (#[trigger] outcomes[i]) matches Some(
            ApiError::InternalServer(_),
        ),
        outcomes[n as int] is None,
    ensures
        call_course(Some(policy), outcomes, transient, k) == (
            n + 1,
            doubling_waits(policy.base_delay_ms as nat, k, n),
            None::<ApiError>,
        ),
    decreases n - k,
{
    let d = policy.base_delay_ms as nat;
    if k < n {
        lemma_recovers_from(policy, outcomes, transient, n, k + 1);
        let e = outcomes[k as int]->Some_0;
        assert(outcome_retryable(e, transient[k as int]));
        assert(seq![saturate(backoff_spec(k, d))] + doubling_waits(d, k + 1, n) =~= doubling_waits(
            d,
            k,
            n,
        ));
    } else {
        assert(doubling_waits(d, k, n) =~= Seq::<u64>::empty());
    }
}

proof fn lemma_doubling_total(d: nat, n: nat)
    requires
        d * two_pow(n) <= u64::MAX,
    ensures
        total_wait(doubling_waits(d, 0, n)) == d * two_pow(n) - d,
    decreases n,
{
    if n == 0 {
        assert(two_pow(0) == 1);
        assert(d * two_pow(0) == d) by (nonlinear_arith)
            requires
                two_pow(0) == 1,
        ;
        assert(doubling_waits(d, 0, 0) =~= Seq::<u64>::empty());
    } else {
        let m = (n - 1) as nat;
        assert(two_pow(n) == 2 * two_pow(m));
        assert(d * two_pow(n) == 2 * (d * two_pow(m))) by (nonlinear_arith)
            requires
                two_pow(n) == 2 * two_pow(m),
        ;
        lemma_doubling_total(d, m);
        assert(doubling_waits(d, 0, n).drop_last() =~= doubling_waits(d, 0, m));
        let w = doubling_waits(d, 0, n);
        assert(w.last() == d * two_pow(m));
        lemma_two_pow_grows(m, m);
        assert(d * two_pow(m) >= d) by (nonlinear_arith)
            requires
                two_pow(m) >= 1,
        ;
        assert(total_wait(w) == total_wait(w.drop_last()) + w.last() as nat);
    }
}

/// A call that meets `n` server errors and then a success, under a policy
/// that allows at least `n` retries, succeeds on attempt `n + 1` and makes
/// no attempt after it. Before attempt `i + 1` it waits `d * 2^i`, where
/// `d` is the base delay, so `d, 2d, 4d, ..., 2^(n-1) d` in all. Where
/// `2^n d` fits a `u64`, no wait is held back and the total is `(2^n - 1) d`.
pub proof fn lemma_recovers_after_server_errors(
    policy: RetryOptions,
    outcomes: Seq<Option<ApiError>>,
    transient: Seq<bool>,
    n: nat,
)
    requires
        n <= policy.max_retries,
        outcomes.len() > n,
        forall|i: int| 0 <= i < n ==> (#[trigger] outcomes[i]) matches Some(
            ApiError::InternalServer(_),
        ),
        outcomes[n as int] is None,
    ensures
        call_course(Some(policy), outcomes, transient, 0) == (
            n + 1,
            doubling_waits(policy.base_delay_ms as nat, 0, n),
            None::<ApiError>,
        ),
        policy.base_delay_ms * two_pow(n) <= u64::MAX ==> total_wait(
            call_course(Some(policy), outcomes, transient, 0).1,
        ) == policy.base_delay_ms * two_pow(n) - policy.base_delay_ms,
{
    lemma_recovers_from(policy, outcomes, transient, n, 0);
    if policy.base_delay_ms * two_pow(n) <= u64::MAX {
        lemma_doubling_total(policy.base_delay_ms as nat, n);
    }
}

proof fn lemma_exhausted_from(
    policy: RetryOptions,
    outcomes: Seq<Option<ApiError>>,
    transient: Seq<bool>,
    k: nat,
)
    requires
        k <= policy.max_retries,
        outcomes.len() > policy.max_retries,
        forall|i: int| 0 <= i <= policy.max_retries ==> (#[trigger] outcomes[i]) matches Some(
            ApiError::InternalServer(_),
        ),
    ensures
        call_course(Some(policy), outcomes, transient, k).0 == policy.max_retries + 1,
        call_course(Some(policy), outcomes, transient, k).2 == outcomes[policy.max_retries as int],
    decreases policy.max_retries - k,
{
    if k < policy.max_retries {
        lemma_exhausted_from(policy, outcomes, transient, k + 1);
    }
}

/// When server errors outlast the policy, the call fails after
/// `max_retries + 1` attempts with the error of the last one, the attempt at
/// index `max_retries`, not an earlier one.
pub proof fn lemma_exhausted_returns_last_error(
    policy: RetryOptions,
    outcomes: Seq<Option<ApiError>>,
    transient: Seq<bool>,
)
    requires
        outcomes.len() > policy.max_retries,
        forall|i: int| 0 <= i <= policy.max_retries ==> (#[trigger] outcomes[i]) matches Some(
            ApiError::InternalServer(_),
        ),
    ensures
        call_course(Some(policy), outcomes, transient, 0).0 == policy.max_retries + 1,
        call_course(Some(policy), outcomes, transient, 0).2 == outcomes[policy.max_retries as int],
{
    lemma_exhausted_from(policy, outcomes, transient, 0);
}

/// A rate limit with no quota left ends the call at once, whatever attempts
/// the policy still allows.
pub proof fn lemma_exhausted_quota_not_retried(
    policy: Option<RetryOptions>,
    outcomes: Seq<Option<ApiError>>,
    transient: Seq<bool>,
    attempt: nat,
)
    requires
        attempt < outcomes.len(),
        outcomes[attempt as int] matches Some(ApiError::TooManyRequests(t)) && t.user_remaining
            == 0,
    ensures
        step_spec(policy, attempt, retryable_spec(outcomes[attempt as int]->Some_0))
            == RetryStep::GiveUp,
        call_course(policy, outcomes, transient, attempt) == (
            attempt + 1,
            Seq::<u64>::empty(),
            outcomes[attempt as int],
        ),
{
}

/// A plain HTTP error response (such as a 404) ends the call at once, however
/// generous the policy.
pub proof fn lemma_http_error_not_retried(
    policy: Option<RetryOptions>,
    outcomes: Seq<Option<ApiError>>,
    transient: Seq<bool>,
    attempt: nat,
)
    requires
        attempt < outcomes.len(),
        outcomes[attempt as int] matches Some(ApiError::HttpResponse(_)),
    ensures
        step_spec(policy, attempt, retryable_spec(outcomes[attempt as int]->Some_0))
            == RetryStep::GiveUp,
        call_course(policy, outcomes, transient, attempt) == (
            attempt + 1,
            Seq::<u64>::empty(),
            outcomes[attempt as int],
        ),
{
}

/// Without a retry policy every failure, of whatever class and however
/// transient, is surfaced at once: a call makes exactly one attempt.
pub proof fn lemma_no_policy_single_attempt(
    outcomes: Seq<Option<ApiError>>,
    transient: Seq<bool>,
    attempt: nat,
    retryable: bool,
)
    requires
        outcomes.len() >= 1,
    ensures
        step_spec(None, attempt, retryable) == RetryStep::GiveUp,
        call_course(None, outcomes, transient, 0).0 == 1,
        call_course(None, outcomes, transient, 0).1 == Seq::<u64>::empty(),
{
}

} // verus!
