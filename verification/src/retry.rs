//! Bounded polling: how often a check is repeated, how long to wait in
//! between, and what to report in the end.
//!
//! The machine owns the counting and the decisions; whoever drives it
//! performs the check and the waiting. It asks for one check at a time,
//! takes the verdict, and finishes on the first success, on the first
//! verdict that can never succeed, or when the budget of attempts is used
//! up.

use crate::escrow::{Attempt, EscrowError, Failure};
use vstd::prelude::*;

verus! {

/// Number of attempts granted where none is named.
pub const DEFAULT_ATTEMPTS: u16 = 90;

/// Seconds between two attempts where none are named.
pub const DEFAULT_DELAY_SECS: u64 = 1;

/// How often to look, and how long to wait between two looks.
#[derive(Clone, Copy, Debug, PartialEq, Eq, Structural)]
pub struct RetryBudget {
    pub attempts: u16,
    pub delay_secs: u64,
}

/// How a verification ended.
#[derive(Clone, Copy, Debug, PartialEq, Eq, Structural)]
pub enum Outcome {
    /// A look met the expectation.
    Succeeded,
    /// All `attempts` looks failed; `last_failure` is what the last one
    /// found, and `None` only if no look was granted at all.
    Exhausted { attempts: u16, last_failure: Option<Failure> },
    /// The expectation was found invalid and no further look was taken.
    Aborted(EscrowError),
}

/// What the driver of a verification has to do next.
#[derive(Clone, Copy, Debug, PartialEq, Eq, Structural)]
pub enum Action {
    /// Wait `delay_secs` seconds, look, and record the verdict.
    Poll { delay_secs: u64 },
    /// Stop: the verification has ended.
    Finish(Outcome),
}

/// The state of one verification.
pub struct RetryModel {
    pub description: Seq<char>,
    pub attempts: u16,
    pub delay_secs: u64,
    pub made: u16,
    pub outcome: Option<Outcome>,
}

impl RetryModel {
    /// No more looks are taken than granted, and a verification that has
    /// not ended has a look left.
    pub open spec fn wf(self) -> bool {
        &&& self.made <= self.attempts
        &&& self.outcome is None ==> self.made < self.attempts
    }

    /// The state after the verdict of one more look. A verification that
    /// has ended takes no further verdict.
    pub open spec fn recorded(self, verdict: Attempt) -> RetryModel {
        if self.outcome is Some || self.made >= self.attempts {
            self
        } else {
            let made = (self.made + 1) as u16;
            match verdict {
                Attempt::Succeeded => RetryModel {
                    made,
                    outcome: Some(Outcome::Succeeded),
                    ..self
                },
                Attempt::Aborted(error) => RetryModel {
                    made,
                    outcome: Some(Outcome::Aborted(error)),
                    ..self
                },
                Attempt::Failed(failure) => RetryModel {
                    made,
                    outcome: if made == self.attempts {
                        Some(
                            Outcome::Exhausted {
                                attempts: self.attempts,
                                last_failure: Some(failure),
                            },
                        )
                    } else {
                        None
                    },
                    ..self
                },
            }
        }
    }

    /// What to do in this state: finish if the verification has ended,
    /// else look again, at once the first time and after the delay from
    /// then on.
    pub open spec fn action(self) -> Action {
        match self.outcome {
            Some(outcome) => Action::Finish(outcome),
            None => Action::Poll {
                delay_secs: if self.made == 0 {
                    0
                } else {
                    self.delay_secs
                },
            },
        }
    }

    /// The state after a run of verdicts, taken in order.
    pub open spec fn replayed(self, verdicts: Seq<Attempt>) -> RetryModel
        decreases verdicts.len(),
    {
        if verdicts.len() == 0 {
            self
        } else {
            self.recorded(verdicts[0]).replayed(verdicts.drop_first())
        }
    }
}

/// The state in which a verification starts: nothing looked at yet, and
/// already exhausted if no look is granted.
pub open spec fn started(description: Seq<char>, budget: RetryBudget) -> RetryModel {
    RetryModel {
        description,
        attempts: budget.attempts,
        delay_secs: budget.delay_secs,
        made: 0,
        outcome: if budget.attempts == 0 {
            Some(Outcome::Exhausted { attempts: 0, last_failure: None })
        } else {
            None
        },
    }
}

/// The outcome that a verdict other than a repeatable failure ends with.
pub open spec fn decided(verdict: Attempt) -> Outcome {
    match verdict {
        Attempt::Aborted(error) => Outcome::Aborted(error),
        _ => Outcome::Succeeded,
    }
}

/// A verdict leads from a valid state to a valid state, never lowers the
/// number of looks taken, and changes nothing but that number and the
/// outcome.
pub proof fn lemma_record_preserves_validity(model: RetryModel, verdict: Attempt)
    requires
        model.wf(),
    ensures
        model.recorded(verdict).wf(),
        model.made <= model.recorded(verdict).made <= model.made + 1,
        model.recorded(verdict).attempts == model.attempts,
        model.recorded(verdict).delay_secs == model.delay_secs,
        model.recorded(verdict).description == model.description,
{
}

/// A verification that has ended stays as it is, whatever is recorded.
pub proof fn lemma_ended_stays_ended(model: RetryModel, verdicts: Seq<Attempt>)
    requires
        model.outcome is Some,
    ensures
        model.replayed(verdicts) == model,
    decreases verdicts.len(),
{
    if verdicts.len() > 0 {
        lemma_ended_stays_ended(model, verdicts.drop_first());
    }
}

/// If every granted look fails, the verification takes exactly as many
/// looks as were granted and ends exhausted, reporting what the last of
/// them found.
pub proof fn lemma_failures_exhaust(model: RetryModel, verdicts: Seq<Attempt>)
    requires
        model.wf(),
        model.outcome is None,
        verdicts.len() >= model.attempts - model.made,
        forall|i: int| 0 <= i < model.attempts - model.made ==> (#[trigger] verdicts[i]) is Failed,
    ensures
        model.replayed(verdicts).made == model.attempts,
        model.replayed(verdicts).outcome == Some(
            Outcome::Exhausted {
                attempts: model.attempts,
                last_failure: Some(verdicts[model.attempts - model.made - 1]->Failed_0),
            },
        ),
    decreases verdicts.len(),
{
    let next = model.recorded(verdicts[0]);
    let rest = verdicts.drop_first();
    assert(verdicts[0] is Failed);
    if next.outcome is Some {
        lemma_ended_stays_ended(next, rest);
    } else {
        assert forall|i: int| 0 <= i < next.attempts - next.made implies (#[trigger] rest[i])
            is Failed by {
            assert(rest[i] == verdicts[i + 1]);
        }
        lemma_failures_exhaust(next, rest);
        assert(rest[next.attempts - next.made - 1] == verdicts[model.attempts - model.made - 1]);
    }
}

/// The first verdict that is not a repeatable failure ends the
/// verification, provided a look is left for it: exactly the looks up to
/// and including it are taken, and none after it.
pub proof fn lemma_first_decisive_verdict_ends(
    model: RetryModel,
    verdicts: Seq<Attempt>,
    index: int,
)
    requires
        model.wf(),
        model.outcome is None,
        0 <= index < verdicts.len(),
        index < model.attempts - model.made,
        forall|i: int| 0 <= i < index ==> (#[trigger] verdicts[i]) is Failed,
        !(verdicts[index] is Failed),
    ensures
        model.replayed(verdicts).made == model.made + index + 1,
        model.replayed(verdicts).outcome == Some(decided(verdicts[index])),
    decreases verdicts.len(),
{
    let next = model.recorded(verdicts[0]);
    let rest = verdicts.drop_first();
    if index == 0 {
        lemma_ended_stays_ended(next, rest);
    } else {
        assert(verdicts[0] is Failed);
        assert forall|i: int| 0 <= i < index - 1 implies (#[trigger] rest[i]) is Failed by {
            assert(rest[i] == verdicts[i + 1]);
        }
        assert(rest[index - 1] == verdicts[index]);
        lemma_first_decisive_verdict_ends(next, rest, index - 1);
    }
}

/// A verification ends within its budget, whatever the looks find: once
/// as many verdicts are in as looks were left, there is an outcome.
pub proof fn lemma_ends_within_budget(model: RetryModel, verdicts: Seq<Attempt>)
    requires
        model.wf(),
        verdicts.len() >= model.attempts - model.made,
    ensures
        model.replayed(verdicts).outcome is Some,
        model.replayed(verdicts).made <= model.attempts,
    decreases verdicts.len(),
{
    if model.outcome is Some {
        lemma_ended_stays_ended(model, verdicts);
    } else {
        lemma_record_preserves_validity(model, verdicts[0]);
        lemma_ends_within_budget(model.recorded(verdicts[0]), verdicts.drop_first());
    }
}

/// From the start, a check that fails at every look is looked at exactly
/// as often as the budget grants, and the verification then ends
/// exhausted with what the last look found.
pub proof fn lemma_budget_of_failures_exhausts(
    description: Seq<char>,
    budget: RetryBudget,
    verdicts: Seq<Attempt>,
)
    requires
        verdicts.len() >= budget.attempts,
        forall|i: int| 0 <= i < budget.attempts ==> (#[trigger] verdicts[i]) is Failed,
    ensures
        started(description, budget).replayed(verdicts).made == budget.attempts,
        started(description, budget).replayed(verdicts).outcome == Some(
            Outcome::Exhausted {
                attempts: budget.attempts,
                last_failure: if budget.attempts == 0 {
                    None
                } else {
                    Some(verdicts[budget.attempts - 1]->Failed_0)
                },
            },
        ),
{
    let model = started(description, budget);
    if budget.attempts == 0 {
        lemma_ended_stays_ended(model, verdicts);
    } else {
        lemma_failures_exhaust(model, verdicts);
    }
}

/// What a verification that did not succeed reports: what was being
/// verified, and how it ended.
#[derive(Debug, PartialEq, Eq)]
pub struct VerifyError {
    pub description: String,
    pub outcome: Outcome,
}

/// One verification in progress. Its state is private: it starts valid
/// and every verdict keeps it so.
#[derive(Debug)]
pub struct Retry {
    description: String,
    attempts: u16,
    delay_secs: u64,
    made: u16,
    outcome: Option<Outcome>,
}

impl View for Retry {
    type V = RetryModel;

    closed spec fn view(&self) -> RetryModel {
        RetryModel {
            description: self.description@,
            attempts: self.attempts,
            delay_secs: self.delay_secs,
            made: self.made,
            outcome: self.outcome,
        }
    }
}

impl RetryBudget {
    /// Ninety attempts, one second apart.
    pub fn standard() -> (budget: RetryBudget)
        ensures
            budget.attempts == 90,
            budget.delay_secs == 1,
    {
        RetryBudget { attempts: DEFAULT_ATTEMPTS, delay_secs: DEFAULT_DELAY_SECS }
    }
}

impl Retry {
    #[verifier::type_invariant]
    closed spec fn valid(&self) -> bool {
        self@.wf()
    }

    /// Starts a verification described by `description` within `budget`.
    pub fn new(description: String, budget: RetryBudget) -> (retry: Retry)
        ensures
            retry@ == started(description@, budget),
            retry@.wf(),
    {
        let outcome: Option<Outcome> = if budget.attempts == 0 {
            Some(Outcome::Exhausted { attempts: 0, last_failure: None })
        } else {
            None
        };
        Retry {
            description,
            attempts: budget.attempts,
            delay_secs: budget.delay_secs,
            made: 0,
            outcome,
        }
    }

    /// What the driver has to do next.
    pub fn action(&self) -> (action: Action)
        ensures
            action == self@.action(),
            self@.wf(),
    {
        proof {
            use_type_invariant(self);
        }
        match self.outcome {
            Some(outcome) => Action::Finish(outcome),
            None => {
                let delay_secs: u64 = if self.made == 0 {
                    0
                } else {
                    self.delay_secs
                };
                Action::Poll { delay_secs }
            },
        }
    }

    /// The number of looks taken so far.
    pub fn attempts_made(&self) -> (made: u16)
        ensures
            made == self@.made,
            made <= self@.attempts,
    {
        proof {
            use_type_invariant(self);
        }
        self.made
    }

    /// Takes the verdict of the look that was asked for. Success and an
    /// invalid expectation end the verification at once; a failure ends
    /// it only if it was the last look granted. After the end nothing
    /// changes any more.
    pub fn record(&mut self, verdict: Attempt)
        ensures
            final(self)@ == old(self)@.recorded(verdict),
            final(self)@.wf(),
    {
        proof {
            use_type_invariant(&*self);
            lemma_record_preserves_validity(self@, verdict);
        }
        if self.outcome.is_none() && self.made < self.attempts {
            let made: u16 = self.made + 1;
            let outcome: Option<Outcome> = match verdict {
                Attempt::Succeeded => Some(Outcome::Succeeded),
                Attempt::Aborted(error) => Some(Outcome::Aborted(error)),
                Attempt::Failed(failure) => {
                    if made == self.attempts {
                        Some(
                            Outcome::Exhausted {
                                attempts: self.attempts,
                                last_failure: Some(failure),
                            },
                        )
                    } else {
                        None
                    }
                },
            };
            self.outcome = outcome;
            self.made = made;
        }
    }

    /// The result of the verification: `None` while it is in progress,
    /// `Ok` after a success, and otherwise the description with the way
    /// it ended.
    pub fn result(&self) -> (r: Option<Result<(), VerifyError>>)
        ensures
            match self@.outcome {
                None => r is None,
                Some(Outcome::Succeeded) => r == Some(Ok::<(), VerifyError>(())),
                Some(outcome) => r is Some && r->Some_0 is Err && r->Some_0->Err_0.outcome
                    == outcome && r->Some_0->Err_0.description@ == self@.description,
            },
    {
        match self.outcome {
            None => None,
            Some(Outcome::Succeeded) => Some(Ok(())),
            Some(outcome) => Some(
                Err(VerifyError { description: self.description.clone(), outcome }),
            ),
        }
    }
}

} // verus!
