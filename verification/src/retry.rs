//! Retrying transient failures: up to three retries, after waits of 2, 5 and
//! 10 seconds; any other failure, or a fourth, is final.

use vstd::prelude::*;
use crate::error::{HabitsError, retryable};

verus! {

/// The waits before the first, second and third retry, in seconds.
pub open spec fn retry_delays() -> Seq<u64> {
    seq![2u64, 5u64, 10u64]
}

/// After the failed attempt number `failures` (counted from 0) with `error`:
/// the wait before trying again, or `None` to give the error back.
pub open spec fn retry_delay_after(failures: int, error: HabitsError) -> Option<u64> {
    if 0 <= failures < 3 && retryable(error) {
        Some(retry_delays()[failures])
    } else {
        None
    }
}

/// The state of an operation that is retried: how many of its attempts have
/// failed and been retried.
pub struct RetryRun {
    pub retries: usize,
}

impl RetryRun {
    /// A run before its first attempt.
    pub fn new() -> (r: Self)
        ensures
            r.retries == 0,
    {
        RetryRun { retries: 0 }
    }

    /// Decides what follows a failed attempt: the wait before the next one,
    /// or `None` when the failure is final, because it is not transient or
    /// because three retries have been made.
    pub fn after_failure(&mut self, error: &HabitsError) -> (r: Option<u64>)
        ensures
            r == retry_delay_after(old(self).retries as int, *error),
            r is Some ==> final(self).retries == old(self).retries + 1,
            r is None ==> final(self).retries == old(self).retries,
    {
        if self.retries < 3 && error.is_retryable() {
            let delay: u64 = if self.retries == 0 {
                2
            } else if self.retries == 1 {
                5
            } else {
                10
            };
            self.retries = self.retries + 1;
            Some(delay)
        } else {
            None
        }
    }
}

/// The waits of a run whose attempts fail, one after the other, with
/// `errors`, starting after `retries` retries: it stops at the first failure
/// that is final.
pub open spec fn run_waits(errors: Seq<HabitsError>, retries: int) -> Seq<u64>
    decreases errors.len(),
{
    if errors.len() == 0 {
        Seq::empty()
    } else {
        match retry_delay_after(retries, errors[0]) {
            Some(d) => seq![d] + run_waits(errors.drop_first(), retries + 1),
            None => Seq::empty(),
        }
    }
}

proof fn lemma_run_waits_from(errors: Seq<HabitsError>, retries: int)
    requires
        0 <= retries <= 3,
    ensures
        run_waits(errors, retries).len() <= 3 - retries,
        run_waits(errors, retries) =~= retry_delays().subrange(retries, retries + run_waits(errors, retries).len()),
    decreases errors.len(),
{
    if errors.len() > 0 {
        if retry_delay_after(retries, errors[0]) is Some {
            lemma_run_waits_from(errors.drop_first(), retries + 1);
        }
    }
}

/// A retried operation is tried at most four times: whatever its failures,
/// a run makes at most three retries, and waits 2, 5 and 10 seconds before
/// them, in that order, so no more than 17 seconds in all.
pub proof fn lemma_retry_bounded(errors: Seq<HabitsError>)
    ensures
        run_waits(errors, 0).len() <= 3,
        run_waits(errors, 0) == retry_delays().take(run_waits(errors, 0).len() as int),
{
    lemma_run_waits_from(errors, 0);
}

/// A failure that is not transient is never retried.
pub proof fn lemma_permanent_failure_not_retried(retries: int, error: HabitsError)
    requires
        !retryable(error),
    ensures
        retry_delay_after(retries, error) is None,
{
}

/// Whether the outcome of an attempt is a transient failure.
pub open spec fn transient<T>(outcome: Result<T, HabitsError>) -> bool {
    outcome matches Err(e) && retryable(e)
}

/// Whether `outcomes`, the outcomes of the attempts of one retried run in
/// order, make a complete run: every attempt but the last failed
/// transiently, and the last did not, or was the fourth.
pub open spec fn complete_run<T>(outcomes: Seq<Result<T, HabitsError>>) -> bool {
    &&& 1 <= outcomes.len() <= 4
    &&& forall|i: int| 0 <= i < outcomes.len() - 1 ==> transient(#[trigger] outcomes[i])
    &&& outcomes.len() < 4 ==> !transient(outcomes[outcomes.len() - 1])
}

/// Whether `before`, `after` and `outcomes` record a retried run from
/// `start`: attempt i took the state `before[i]` and gave back `after[i]`
/// and `outcomes[i]`; every wait but the last took the state after an
/// attempt and the scheduled number of seconds, and gave back the state
/// before the next attempt.
pub open spec fn retry_trace<S, T, F, W>(
    f: F,
    wait: W,
    start: S,
    before: Seq<S>,
    after: Seq<S>,
    outcomes: Seq<Result<T, HabitsError>>,
) -> bool
    where
        F: Fn(S) -> (S, Result<T, HabitsError>),
        W: Fn(S, u64) -> S,
{
    &&& before.len() == outcomes.len()
    &&& after.len() == outcomes.len()
    &&& before.len() > 0 ==> before[0] == start
    &&& forall|i: int| #![trigger outcomes[i]]
        0 <= i < outcomes.len() ==> f.ensures((before[i],), (after[i], outcomes[i]))
    &&& forall|i: int| #![trigger before[i + 1]]
        0 <= i < outcomes.len() - 1 ==> wait.ensures((after[i], retry_delays()[i]), before[i + 1])
}

/// Runs an operation until it succeeds or fails for good. The operation
/// and the waiting are threaded through a state `start` that each of them
/// takes and gives back, so that every call is on record: with k the first
/// attempt among the first three whose outcome is not a transient failure,
/// or 4 if there is none, `f` is called exactly k times and `wait` exactly
/// k - 1 times, with 2, 5 and 10 seconds in that order, one wait between
/// two attempts; the result is the final state and the k-th outcome.
pub fn with_retry<S, T, F, W>(start: S, f: &F, wait: &W) -> (r: (S, Result<T, HabitsError>))
    where
        F: Fn(S) -> (S, Result<T, HabitsError>),
        W: Fn(S, u64) -> S,
    requires
        forall|s: S| f.requires((s,)),
        forall|s: S, d: u64| wait.requires((s, d)),
    ensures
        exists|before: Seq<S>, after: Seq<S>, outcomes: Seq<Result<T, HabitsError>>| {
            &&& #[trigger] complete_run(outcomes)
            &&& #[trigger] retry_trace(*f, *wait, start, before, after, outcomes)
            &&& r == (after[outcomes.len() - 1], outcomes[outcomes.len() - 1])
        },
{
    let mut run = RetryRun::new();
    let mut state = start;
    let ghost mut before: Seq<S> = Seq::empty();
    let ghost mut after: Seq<S> = Seq::empty();
    let ghost mut outcomes: Seq<Result<T, HabitsError>> = Seq::empty();
    loop
        invariant
            forall|s: S| f.requires((s,)),
            forall|s: S, d: u64| wait.requires((s, d)),
            run.retries == outcomes.len(),
            run.retries <= 3,
            forall|i: int| 0 <= i < outcomes.len() ==> transient(#[trigger] outcomes[i]),
            retry_trace(*f, *wait, start, before, after, outcomes),
            outcomes.len() == 0 ==> state == start,
            outcomes.len() > 0 ==> wait.ensures(
                (after[outcomes.len() - 1], retry_delays()[outcomes.len() - 1]),
                state,
            ),
        decreases 3 - run.retries,
    {
        let ghost s0 = state;
        let (next, outcome) = f(state);
        let ghost o = outcome;
        let ghost s1 = next;
        let delay = match &outcome {
            Ok(_) => None,
            Err(e) => run.after_failure(e),
        };
        let ghost b2 = before.push(s0);
        let ghost a2 = after.push(s1);
        let ghost o2 = outcomes.push(o);
        proof {
            assert forall|i: int| #![trigger o2[i]] 0 <= i < o2.len() implies f.ensures((b2[i],), (a2[i], o2[i])) by {
                if i < outcomes.len() {
                    assert(b2[i] == before[i] && a2[i] == after[i] && o2[i] == outcomes[i]);
                }
            }
            assert forall|i: int| #![trigger b2[i + 1]] 0 <= i < o2.len() - 1
                implies wait.ensures((a2[i], retry_delays()[i]), b2[i + 1]) by {
                if i < outcomes.len() - 1 {
                    assert(a2[i] == after[i] && b2[i + 1] == before[i + 1]);
                } else {
                    assert(b2[i + 1] == s0);
                    assert(a2[i] == after[i]);
                }
            }
            assert(retry_trace(*f, *wait, start, b2, a2, o2));
        }
        match delay {
            None => {
                proof {
                    assert forall|i: int| 0 <= i < o2.len() - 1 implies transient(#[trigger] o2[i]) by {
                        assert(o2[i] == outcomes[i]);
                    }
                    assert(o2[o2.len() - 1] == o);
                    assert(complete_run(o2));
                }
                return (next, outcome);
            },
            Some(d) => {
                proof {
                    assert(d == retry_delays()[outcomes.len() as int]);
                    assert(transient(o));
                }
                state = wait(next, d);
                proof {
                    before = b2;
                    after = a2;
                    outcomes = o2;
                }
            },
        }
    }
}

} // verus!
