//! When an attempt is repeated.
//!
//! A retry loop makes an attempt, hands its outcome to the step function of
//! its kind, and does what the step says: it ends with a result, or it sleeps
//! and makes the next attempt. No number of attempts ends the loop by itself.

use crate::client::GrenacheClient;
use crate::error::{Error, ErrorKind};
use crate::hosts::{hosts_of, hosts_view, nothing_yet};
use crate::json::{answer_view, JsonTree, JsonValue};
use vstd::prelude::*;

verus! {

/// What a retry loop does after an attempt.
#[derive(Debug, PartialEq, Eq)]
pub enum RetryStep<T> {
    /// The loop ends with this result.
    Done(T),
    /// The loop sleeps for so many seconds and makes another attempt.
    Retry { sleep_secs: u64 },
}

/// The seconds between two attempts of a lookup.
pub const LOOKUP_RETRY_PERIOD: u64 = 1;

/// What the loop that announces does after an attempt: it ends with the
/// gateway's answer, and repeats the attempt after any error.
pub open spec fn announce_decision(answer: Option<JsonTree>, period: u64) -> RetryStep<JsonTree> {
    match answer {
        Some(answer) => RetryStep::Done(answer),
        None => RetryStep::Retry { sleep_secs: period },
    }
}

/// A step of the loop that announces, with the answer seen as a tree.
pub open spec fn announce_step_view(step: RetryStep<JsonValue>) -> RetryStep<JsonTree> {
    match step {
        RetryStep::Done(answer) => RetryStep::Done(answer@),
        RetryStep::Retry { sleep_secs } => RetryStep::Retry { sleep_secs },
    }
}

/// What the loop that looks up does after an attempt: it repeats the attempt
/// after any error and after an answer without items, and ends with the hosts
/// of any other answer, or with the error for an answer that names no hosts.
pub open spec fn lookup_decision(answer: Option<JsonTree>) -> RetryStep<
    Result<Seq<Seq<char>>, Seq<char>>,
> {
    match answer {
        Some(answer) => if answer.is_empty_array() {
            RetryStep::Retry { sleep_secs: LOOKUP_RETRY_PERIOD }
        } else {
            RetryStep::Done(hosts_of(answer))
        },
        None => RetryStep::Retry { sleep_secs: LOOKUP_RETRY_PERIOD },
    }
}

/// A step of the lookup loop, with names and message seen as characters.
pub open spec fn lookup_step_view(step: RetryStep<Result<Vec<String>, Error>>) -> RetryStep<
    Result<Seq<Seq<char>>, Seq<char>>,
> {
    match step {
        RetryStep::Done(result) => RetryStep::Done(hosts_view(result)),
        RetryStep::Retry { sleep_secs } => RetryStep::Retry { sleep_secs },
    }
}

impl GrenacheClient {
    /// Decides what the loop that announces does after an attempt with the
    /// given outcome, where `period` is the time between attempts in seconds.
    pub fn attempt_announce_step(outcome: Result<JsonValue, Error>, period: u64) -> (step:
        RetryStep<JsonValue>)
        ensures
            announce_step_view(step) == announce_decision(answer_view(outcome), period),
    {
        match outcome {
            Ok(answer) => RetryStep::Done(answer),
            Err(_) => RetryStep::Retry { sleep_secs: period },
        }
    }

    /// Decides what the loop that looks up does after an attempt with the
    /// given outcome. An answer with items is final, whether it names hosts or
    /// not: an answer that does not is an `InvalidResponse` error.
    pub fn attempt_lookup_step(outcome: Result<JsonValue, Error>) -> (step: RetryStep<
        Result<Vec<String>, Error>,
    >)
        ensures
            lookup_step_view(step) == lookup_decision(answer_view(outcome)),
            step matches RetryStep::Done(Err(e)) ==> e.kind == ErrorKind::InvalidResponse,
    {
        if Self::result_is_empty_array_or_error(&outcome) {
            RetryStep::Retry { sleep_secs: LOOKUP_RETRY_PERIOD }
        } else {
            match outcome {
                Ok(answer) => RetryStep::Done(Self::get_hosts_from_array(answer)),
                Err(_) => RetryStep::Retry { sleep_secs: LOOKUP_RETRY_PERIOD },
            }
        }
    }
}

/// An answer without items is never read for hosts: the loop that looks up
/// repeats the lookup instead, as it does after an error.
pub proof fn lemma_nothing_yet_is_retried(answer: Option<JsonTree>)
    ensures
        nothing_yet(answer) <==> lookup_decision(answer) is Retry,
        nothing_yet(answer) ==> lookup_decision(answer) == (RetryStep::<
            Result<Seq<Seq<char>>, Seq<char>>,
        >::Retry { sleep_secs: LOOKUP_RETRY_PERIOD }),
{
}

/// The steps of a loop that ends: every step but the last repeats the
/// attempt, and the last one is final.
pub open spec fn ends_at<T>(steps: Seq<RetryStep<T>>, last: int) -> bool {
    &&& 0 <= last < steps.len()
    &&& steps[last] is Done
    &&& forall|i: int| 0 <= i < last ==> #[trigger] steps[i] is Retry
}

/// The seconds slept over the first `n` steps.
pub open spec fn seconds_slept<T>(steps: Seq<RetryStep<T>>, n: int) -> int
    decreases n,
{
    if n <= 0 || n > steps.len() {
        0
    } else {
        seconds_slept(steps, n - 1) + match steps[n - 1] {
            RetryStep::Retry { sleep_secs } => sleep_secs as int,
            RetryStep::Done(_) => 0,
        }
    }
}

/// The steps that the loop that announces takes over a run of attempts, of
/// which each has an answer or fails.
pub open spec fn announce_steps(answers: Seq<Option<JsonTree>>, period: u64) -> Seq<
    RetryStep<JsonTree>,
> {
    answers.map_values(|answer: Option<JsonTree>| announce_decision(answer, period))
}

/// The steps that the loop that looks up takes over a run of attempts, of
/// which each has an answer or fails.
pub open spec fn lookup_steps(answers: Seq<Option<JsonTree>>) -> Seq<
    RetryStep<Result<Seq<Seq<char>>, Seq<char>>>,
> {
    answers.map_values(|answer: Option<JsonTree>| lookup_decision(answer))
}

/// Where the first `failures` attempts to announce fail and the next one
/// succeeds, the loop ends at that attempt and not before, with the answer of
/// that attempt, and it has slept the period once for each failure.
pub proof fn lemma_announce_ends_at_first_success(
    answers: Seq<Option<JsonTree>>,
    period: u64,
    failures: int,
)
    requires
        0 <= failures < answers.len(),
        answers[failures] is Some,
        forall|i: int| 0 <= i < failures ==> #[trigger] answers[i] is None,
    ensures
        ends_at(announce_steps(answers, period), failures),
        announce_steps(answers, period)[failures] == RetryStep::Done(answers[failures]->Some_0),
        seconds_slept(announce_steps(answers, period), failures) == failures * period,
{
    let steps = announce_steps(answers, period);
    assert forall|i: int| 0 <= i < failures implies #[trigger] steps[i] is Retry by {
        assert(answers[i] is None);
    }
    lemma_slept_while_retrying(steps, failures, period);
}

/// Where the first `empty` lookups say "nothing yet" and the next one gives
/// an answer with items, the loop ends at that lookup and not before, with
/// the hosts of that answer or the error for it, and it has slept one period
/// for each lookup before.
pub proof fn lemma_lookup_ends_at_first_answer(answers: Seq<Option<JsonTree>>, empty: int)
    requires
        0 <= empty < answers.len(),
        !nothing_yet(answers[empty]),
        forall|i: int| 0 <= i < empty ==> nothing_yet(#[trigger] answers[i]),
    ensures
        ends_at(lookup_steps(answers), empty),
        lookup_steps(answers)[empty] == RetryStep::Done(hosts_of(answers[empty]->Some_0)),
        seconds_slept(lookup_steps(answers), empty) == empty * LOOKUP_RETRY_PERIOD,
{
    let steps = lookup_steps(answers);
    assert forall|i: int| 0 <= i < empty implies #[trigger] steps[i] is Retry && steps[i]
        == (RetryStep::<Result<Seq<Seq<char>>, Seq<char>>>::Retry {
        sleep_secs: LOOKUP_RETRY_PERIOD,
    }) by {
        assert(nothing_yet(answers[i]));
    }
    lemma_slept_while_retrying(steps, empty, LOOKUP_RETRY_PERIOD);
}

/// A loop that repeats its first `n` attempts after the same period has
/// slept `n` periods by then.
pub proof fn lemma_slept_while_retrying<T>(steps: Seq<RetryStep<T>>, n: int, period: u64)
    requires
        0 <= n <= steps.len(),
        forall|i: int|
            0 <= i < n ==> #[trigger] steps[i] == (RetryStep::<T>::Retry { sleep_secs: period }),
    ensures
        seconds_slept(steps, n) == n * period,
    decreases n,
{
    if n > 0 {
        lemma_slept_while_retrying(steps, n - 1, period);
        assert(steps[n - 1] == (RetryStep::<T>::Retry { sleep_secs: period }));
        assert(seconds_slept(steps, n) == seconds_slept(steps, n - 1) + period);
        assert(n * period == (n - 1) * period + period) by (nonlinear_arith);
    } else {
        assert(n * period == 0) by (nonlinear_arith)
            requires
                n == 0,
        ;
    }
}

} // verus!
