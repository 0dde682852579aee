//! Retrying a transfer a bounded number of times.
//!
//! The policy is a small machine. It asks for an attempt, is told how the
//! attempt ended, and after a failure asks that the partial file be discarded
//! before it asks again. There is no delay between attempts.

use crate::outcome::TransferOutcome;
use vstd::prelude::*;

verus! {

/// What the policy is waiting for.
#[derive(Clone, Copy, Debug, PartialEq, Eq, Structural)]
pub enum RetryPhase {
    /// An attempt is to be made.
    Attempting,
    /// The attempt failed as given; what it left behind is to be discarded.
    Discarding(TransferOutcome),
    /// Nothing more is to be done; the result.
    Finished(TransferOutcome),
}

/// What happened to the action that the policy asked for.
#[derive(Clone, Copy, Debug, PartialEq, Eq, Structural)]
pub enum RetryEvent {
    /// The attempt ended as given.
    Attempted(TransferOutcome),
    /// The partial file is gone.
    Discarded,
}

/// What the policy asks its caller to do next.
#[derive(Clone, Copy, Debug, PartialEq, Eq, Structural)]
pub enum RetryAction {
    /// Make one transfer attempt and report how it ended.
    Attempt,
    /// Delete whatever is at the destination and report that.
    Discard,
    /// Stop; this is the result.
    Finish(TransferOutcome),
}

/// A bounded retry loop in progress.
#[derive(Clone, Copy, Debug, PartialEq, Eq, Structural)]
pub struct RetryPolicy {
    /// The most attempts that will be made; at least one.
    pub max_attempts: u32,
    /// The attempts whose end has been reported.
    pub attempts: u32,
    /// What the policy is waiting for.
    pub phase: RetryPhase,
}

impl RetryPolicy {
    /// A policy as `new` makes it: no attempt made yet, at least one allowed.
    pub open spec fn fresh(max_attempts: u32) -> RetryPolicy {
        RetryPolicy { max_attempts, attempts: 0, phase: RetryPhase::Attempting }
    }

    /// The policy never counts more attempts than it allows.
    pub open spec fn wf(self) -> bool {
        &&& self.max_attempts >= 1
        &&& self.attempts <= self.max_attempts
        &&& self.phase is Attempting ==> self.attempts < self.max_attempts
        &&& self.phase is Discarding ==> self.attempts >= 1
    }

    /// The action that the policy is waiting for.
    pub open spec fn pending(self) -> RetryAction {
        match self.phase {
            RetryPhase::Attempting => RetryAction::Attempt,
            RetryPhase::Discarding(_) => RetryAction::Discard,
            RetryPhase::Finished(outcome) => RetryAction::Finish(outcome),
        }
    }

    /// The policy after an event. A finished policy stays as it is. A raised
    /// cancellation flag ends it as interrupted, whatever the event. A success
    /// ends it; a failure is followed by discarding, and then by another
    /// attempt while any is left, else by the failure as result. An event that
    /// the policy is not waiting for changes nothing.
    pub open spec fn next(self, event: RetryEvent, cancelled: bool) -> RetryPolicy {
        match (self.phase, event) {
            (RetryPhase::Finished(_), _) => self,
            _ if cancelled => RetryPolicy {
                phase: RetryPhase::Finished(TransferOutcome::Interrupted),
                ..self
            },
            (RetryPhase::Attempting, RetryEvent::Attempted(outcome)) => RetryPolicy {
                attempts: if self.attempts < u32::MAX {
                    (self.attempts + 1) as u32
                } else {
                    self.attempts
                },
                phase: if outcome.failed() {
                    RetryPhase::Discarding(outcome)
                } else {
                    RetryPhase::Finished(outcome)
                },
                ..self
            },
            (RetryPhase::Discarding(failure), RetryEvent::Discarded) => RetryPolicy {
                phase: if self.attempts < self.max_attempts {
                    RetryPhase::Attempting
                } else {
                    RetryPhase::Finished(failure)
                },
                ..self
            },
            _ => self,
        }
    }

    /// The policy after it ran, without cancellation, against attempts that
    /// end as `outcomes` say, one outcome per attempt made, every discard
    /// being carried out. It stops where the policy finishes or the outcomes
    /// run out.
    pub open spec fn run(self, outcomes: Seq<TransferOutcome>) -> RetryPolicy
        decreases outcomes.len(), (if self.phase is Discarding { 1nat } else { 0nat }),
    {
        match self.phase {
            RetryPhase::Finished(_) => self,
            RetryPhase::Discarding(_) => self.next(RetryEvent::Discarded, false).run(outcomes),
            RetryPhase::Attempting => if outcomes.len() == 0 {
                self
            } else {
                self.next(RetryEvent::Attempted(outcomes[0]), false).run(outcomes.skip(1))
            },
        }
    }

    /// A policy that allows `max_attempts` attempts; none where that is zero.
    pub fn new(max_attempts: u32) -> (policy: Option<RetryPolicy>)
        ensures
            policy == if max_attempts >= 1 {
                Some(RetryPolicy::fresh(max_attempts))
            } else {
                None
            },
            policy is Some ==> policy->0.wf(),
    {
        if max_attempts >= 1 {
            Some(RetryPolicy { max_attempts, attempts: 0, phase: RetryPhase::Attempting })
        } else {
            None
        }
    }

    /// The action that the policy is waiting for.
    pub fn action(&self) -> (action: RetryAction)
        ensures
            action == self.pending(),
    {
        match self.phase {
            RetryPhase::Attempting => RetryAction::Attempt,
            RetryPhase::Discarding(_) => RetryAction::Discard,
            RetryPhase::Finished(outcome) => RetryAction::Finish(outcome),
        }
    }

    /// The result, once the policy has finished.
    pub fn result(&self) -> (result: Option<TransferOutcome>)
        ensures
            result == match self.phase {
                RetryPhase::Finished(outcome) => Some(outcome),
                _ => None,
            },
    {
        match self.phase {
            RetryPhase::Finished(outcome) => Some(outcome),
            _ => None,
        }
    }

    /// Takes in what happened to the pending action, with the cancellation
    /// flag as it was seen afterwards, and returns the next action.
    pub fn step(&mut self, event: RetryEvent, cancelled: bool) -> (action: RetryAction)
        ensures
            *final(self) == old(self).next(event, cancelled),
            action == final(self).pending(),
            old(self).wf() ==> final(self).wf(),
    {
        match (self.phase, event) {
            (RetryPhase::Finished(_), _) => {},
            (RetryPhase::Attempting, RetryEvent::Attempted(outcome)) => {
                if cancelled {
                    self.phase = RetryPhase::Finished(TransferOutcome::Interrupted);
                } else {
                    if self.attempts < u32::MAX {
                        self.attempts = self.attempts + 1;
                    }
                    if outcome.is_failure() {
                        self.phase = RetryPhase::Discarding(outcome);
                    } else {
                        self.phase = RetryPhase::Finished(outcome);
                    }
                }
            },
            (RetryPhase::Discarding(failure), RetryEvent::Discarded) => {
                if cancelled {
                    self.phase = RetryPhase::Finished(TransferOutcome::Interrupted);
                } else if self.attempts < self.max_attempts {
                    self.phase = RetryPhase::Attempting;
                } else {
                    self.phase = RetryPhase::Finished(failure);
                }
            },
            _ => {
                if cancelled {
                    self.phase = RetryPhase::Finished(TransferOutcome::Interrupted);
                }
            },
        }
        self.action()
    }
}

/// The outcomes before position `upto` are all failures.
pub open spec fn all_failed(outcomes: Seq<TransferOutcome>, upto: int) -> bool {
    forall|j: int| 0 <= j < upto && j < outcomes.len() ==> (#[trigger] outcomes[j]).failed()
}

/// A policy in the middle of its attempts, whose next `k` attempts fail and
/// whose attempt after those does not, finishes with that attempt's outcome
/// after exactly `k + 1` more attempts.
pub proof fn run_ends_at_first_non_failure(
    policy: RetryPolicy,
    outcomes: Seq<TransferOutcome>,
    k: int,
)
    requires
        policy.wf(),
        policy.phase is Attempting,
        0 <= k < outcomes.len(),
        policy.attempts + k < policy.max_attempts,
        all_failed(outcomes, k),
        !outcomes[k].failed(),
    ensures
        policy.run(outcomes).phase == RetryPhase::Finished(outcomes[k]),
        policy.run(outcomes).attempts == policy.attempts + k + 1,
        policy.run(outcomes).max_attempts == policy.max_attempts,
    decreases k,
{
    let attempted = policy.next(RetryEvent::Attempted(outcomes[0]), false);
    if k == 0 {
        assert(attempted.run(outcomes.skip(1)) == attempted);
    } else {
        assert(outcomes[0].failed());
        let again = attempted.next(RetryEvent::Discarded, false);
        assert(attempted.run(outcomes.skip(1)) == again.run(outcomes.skip(1)));
        let rest = outcomes.skip(1);
        assert(all_failed(rest, k - 1)) by {
            assert forall|j: int| 0 <= j < k - 1 && j < rest.len() implies (
            #[trigger] rest[j]).failed() by {
                assert(rest[j] == outcomes[j + 1]);
            }
        }
        assert(rest[k - 1] == outcomes[k]);
        run_ends_at_first_non_failure(again, rest, k - 1);
    }
}

/// A policy in the middle of its attempts, all of whose remaining attempts
/// fail, finishes with the last failure after exactly as many attempts as it
/// allows.
pub proof fn run_gives_up_after_max(policy: RetryPolicy, outcomes: Seq<TransferOutcome>)
    requires
        policy.wf(),
        policy.phase is Attempting,
        outcomes.len() >= policy.max_attempts - policy.attempts,
        all_failed(outcomes, policy.max_attempts - policy.attempts),
    ensures
        policy.run(outcomes).phase == RetryPhase::Finished(
            outcomes[policy.max_attempts - policy.attempts - 1],
        ),
        policy.run(outcomes).attempts == policy.max_attempts,
    decreases policy.max_attempts - policy.attempts,
{
    let left = policy.max_attempts - policy.attempts;
    assert(outcomes[0].failed());
    let attempted = policy.next(RetryEvent::Attempted(outcomes[0]), false);
    let after = attempted.next(RetryEvent::Discarded, false);
    let rest = outcomes.skip(1);
    assert(attempted.run(rest) == after.run(rest));
    if left == 1 {
        assert(after.run(rest) == after);
    } else {
        assert(all_failed(rest, left - 1)) by {
            assert forall|j: int| 0 <= j < left - 1 && j < rest.len() implies (
            #[trigger] rest[j]).failed() by {
                assert(rest[j] == outcomes[j + 1]);
            }
        }
        run_gives_up_after_max(after, rest);
        assert(rest[left - 2] == outcomes[left - 1]);
    }
}

/// A fresh policy whose first `k` attempts fail and whose next one succeeds
/// makes exactly `k + 1` attempts and reports that success, as long as
/// `k + 1` attempts are allowed.
pub proof fn succeeds_after_failures(
    max_attempts: u32,
    outcomes: Seq<TransferOutcome>,
    k: int,
    bytes: u64,
)
    requires
        0 <= k < max_attempts,
        k < outcomes.len(),
        all_failed(outcomes, k),
        outcomes[k] == TransferOutcome::Success(bytes),
    ensures
        RetryPolicy::fresh(max_attempts).run(outcomes).phase == RetryPhase::Finished(
            TransferOutcome::Success(bytes),
        ),
        RetryPolicy::fresh(max_attempts).run(outcomes).attempts == k + 1,
{
    run_ends_at_first_non_failure(RetryPolicy::fresh(max_attempts), outcomes, k);
}

/// A fresh policy all of whose attempts fail makes exactly as many attempts
/// as it allows and reports the last failure.
pub proof fn fails_after_max_attempts(max_attempts: u32, outcomes: Seq<TransferOutcome>)
    requires
        max_attempts >= 1,
        outcomes.len() >= max_attempts,
        all_failed(outcomes, max_attempts as int),
    ensures
        RetryPolicy::fresh(max_attempts).run(outcomes).phase == RetryPhase::Finished(
            outcomes[max_attempts - 1],
        ),
        RetryPolicy::fresh(max_attempts).run(outcomes).phase->Finished_0.failed(),
        RetryPolicy::fresh(max_attempts).run(outcomes).attempts == max_attempts,
{
    run_gives_up_after_max(RetryPolicy::fresh(max_attempts), outcomes);
}

/// Once the cancellation flag is seen, an unfinished policy finishes as
/// interrupted without asking for anything more.
pub proof fn cancellation_ends_retries(policy: RetryPolicy, event: RetryEvent)
    requires
        !(policy.phase is Finished),
    ensures
        policy.next(event, true).pending() == RetryAction::Finish(TransferOutcome::Interrupted),
        policy.next(event, true).attempts == policy.attempts,
{
}

} // verus!
