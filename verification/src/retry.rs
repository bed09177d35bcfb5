//! The bounded, fixed-interval retry policy, and the model of the retrying
//! call loop it bounds.
//!
//! The loop itself suspends between attempts (a timer, a fresh slot
//! selection, a network dispatch), so the driver outside this crate runs it;
//! it feeds each attempt's outcome to [`decide_retry`] and obeys the
//! decision. `attempts_made` is the mathematical model of that loop: given
//! the outcomes the attempts would produce, it counts how many attempts the
//! loop performs.

use vstd::prelude::*;

use crate::error::ClientError;
use crate::error::is_transient;

verus! {

/// The retry policy of a pool: wait `interval_ms` between attempts, with no
/// backoff growth, and perform at most `max_retries` attempts after the
/// first. Immutable once constructed; shared by the whole pool.
#[derive(Clone, Copy, Debug, PartialEq, Eq, Structural)]
pub struct RetryStrategy {
    pub interval_ms: u64,
    pub max_retries: usize,
}

/// What the retrying loop does after a failed attempt.
#[derive(Clone, Copy, Debug, PartialEq, Eq, Structural)]
pub enum RetryDecision {
    /// Wait this many milliseconds, then re-run the whole selection and
    /// dispatch sequence (a different slot may be chosen).
    RetryAfterMs { interval_ms: u64 },
    /// Surface the failure to the caller unchanged.
    GiveUp,
}

/// Decides whether a failed attempt is re-run. `attempts_made` counts the
/// attempts already performed, the failed one included, so it is at least 1.
///
/// A retry is granted exactly when the failure is transient and fewer than
/// `max_retries` retries have been spent; the wait is always the policy's
/// fixed interval.
pub fn decide_retry(strategy: &RetryStrategy, attempts_made: usize, error: &ClientError) -> (d:
    RetryDecision)
    requires
        1 <= attempts_made,
    ensures
        d is RetryAfterMs <==> (is_transient(*error) && attempts_made <= strategy.max_retries),
        d is RetryAfterMs ==> d->interval_ms == strategy.interval_ms,
{
    if retry_allowed(strategy, attempts_made, error) {
        RetryDecision::RetryAfterMs { interval_ms: strategy.interval_ms }
    } else {
        RetryDecision::GiveUp
    }
}

/// True when one more attempt is allowed: the failure is transient and the
/// retry budget is not exhausted.
fn retry_allowed(strategy: &RetryStrategy, attempts_made: usize, error: &ClientError) -> (r: bool)
    ensures
        r == (is_transient(*error) && attempts_made <= strategy.max_retries),
{
    crate::error::retry_condition(error) && attempts_made <= strategy.max_retries
}

/// A failed attempt whose failure is transient: the only outcome after
/// which the loop may go on.
pub open spec fn transient_failure<R>(o: Result<R, ClientError>) -> bool {
    o matches Err(e) && is_transient(e)
}

/// How many attempts the retrying loop performs when successive attempts
/// would produce `outcomes`, with `budget` retries left after the first
/// outcome: an attempt ends the loop unless its outcome is a transient
/// failure and budget remains.
pub open spec fn attempts_rec<R>(budget: nat, outcomes: Seq<Result<R, ClientError>>) -> nat
    decreases outcomes.len(),
{
    if outcomes.len() == 0 {
        0
    } else {
        match outcomes[0] {
            Ok(_) => 1,
            Err(e) => if is_transient(e) && budget > 0 {
                1 + attempts_rec((budget - 1) as nat, outcomes.drop_first())
            } else {
                1
            },
        }
    }
}

/// How many attempts a loop governed by `strategy` performs on `outcomes`.
pub open spec fn attempts_made<R>(strategy: RetryStrategy, outcomes: Seq<
    Result<R, ClientError>,
>) -> nat {
    attempts_rec(strategy.max_retries as nat, outcomes)
}

/// Retry bound: a call that fails with the transient code on every attempt
/// is attempted exactly `max_retries + 1` times in total, then its failure
/// is surfaced.
pub proof fn lemma_retry_bound<R>(strategy: RetryStrategy, outcomes: Seq<Result<R, ClientError>>)
    requires
        outcomes.len() > strategy.max_retries,
        forall|i: int| 0 <= i < outcomes.len() ==> transient_failure(#[trigger] outcomes[i]),
    ensures
        attempts_made(strategy, outcomes) == strategy.max_retries + 1,
{
    lemma_attempts_all_transient(strategy.max_retries as nat, outcomes);
}

proof fn lemma_attempts_all_transient<R>(budget: nat, outcomes: Seq<Result<R, ClientError>>)
    requires
        outcomes.len() > budget,
        forall|i: int| 0 <= i < outcomes.len() ==> transient_failure(#[trigger] outcomes[i]),
    ensures
        attempts_rec(budget, outcomes) == budget + 1,
    decreases budget,
{
    assert(transient_failure(outcomes[0]));
    if budget > 0 {
        let rest = outcomes.drop_first();
        assert forall|i: int| 0 <= i < rest.len() implies transient_failure(#[trigger] rest[i]) by {
            assert(rest[i] == outcomes[i + 1]);
        }
        lemma_attempts_all_transient((budget - 1) as nat, rest);
    }
}

/// Retry exclusivity: a call whose first attempt fails with any
/// non-transient failure is attempted exactly once.
pub proof fn lemma_no_retry_on_non_transient<R>(
    strategy: RetryStrategy,
    outcomes: Seq<Result<R, ClientError>>,
)
    requires
        outcomes.len() > 0,
        outcomes[0] matches Err(e) && !is_transient(e),
    ensures
        attempts_made(strategy, outcomes) == 1,
{
}

} // verus!
