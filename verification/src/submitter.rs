//! Bounded-retry submission of a single transaction.
//!
//! One logical submission makes up to [`RETRIES`] attempts.  Each attempt
//! first obtains a fresh block reference and then sends the signed
//! transaction; either step can fail, and either failure consumes one
//! attempt.  The first confirmed attempt ends the submission.  A submission
//! that exhausts its attempts ends in [`SubmissionOutcome::Failed`]; no
//! intermediate "maybe sent" state survives the retry loop.
//!
//! What the network answered on each attempt arrives as an
//! [`AttemptEvent`], so the retry policy itself is ordinary verified code.

use vstd::prelude::*;

verus! {

/// Attempts granted to one submission before it is declared failed.
pub const RETRIES: u8 = 5;

/// What one attempt of the retry loop observed at the network boundary.
pub enum AttemptEvent {
    /// No fresh block reference could be fetched; the attempt is consumed.
    BlockRefUnavailable,
    /// The transaction was sent but not confirmed; the attempt is consumed.
    NotConfirmed,
    /// The transaction was confirmed under this signature.
    Confirmed(String),
}

/// The terminal state of one submission: confirmed under a signature, or
/// failed after exhausting every attempt.
pub enum SubmissionOutcome {
    Confirmed(String),
    Failed,
}

impl AttemptEvent {
    pub open spec fn is_confirmed(&self) -> bool {
        self matches AttemptEvent::Confirmed(_)
    }
}

impl SubmissionOutcome {
    pub open spec fn is_confirmed(&self) -> bool {
        self matches SubmissionOutcome::Confirmed(_)
    }
}

/// The outcome that the retry loop reaches when the successive attempts
/// observe `events`, with `attempts` attempts left: the first confirmation
/// within the attempt budget wins, anything else burns one attempt.
pub open spec fn outcome_of(events: Seq<AttemptEvent>, attempts: nat) -> SubmissionOutcome
    decreases attempts,
{
    if attempts == 0 || events.len() == 0 {
        SubmissionOutcome::Failed
    } else {
        match events[0] {
            AttemptEvent::Confirmed(signature) => SubmissionOutcome::Confirmed(signature),
            _ => outcome_of(events.drop_first(), (attempts - 1) as nat),
        }
    }
}

/// LAW: the retry loop ends in a confirmation exactly when some attempt
/// within the budget observes one; no confirmation within the budget is
/// ever passed over, and none beyond it is ever reached.
pub proof fn lemma_confirmed_iff_confirmation_within_budget(
    events: Seq<AttemptEvent>,
    attempts: nat,
)
    ensures
        outcome_of(events, attempts).is_confirmed() <==> exists|i: int|
            0 <= i < attempts && i < events.len() && (#[trigger] events[i]).is_confirmed(),
    decreases attempts,
{
    if attempts == 0 || events.len() == 0 {
    } else if events[0].is_confirmed() {
        assert(0 < attempts && 0 < events.len() && events[0].is_confirmed());
    } else {
        let rest = events.drop_first();
        lemma_confirmed_iff_confirmation_within_budget(rest, (attempts - 1) as nat);
        if outcome_of(events, attempts).is_confirmed() {
            let i = choose|i: int|
                0 <= i < attempts - 1 && i < rest.len() && (#[trigger] rest[i]).is_confirmed();
            assert(events[i + 1] == rest[i]);
            assert(0 <= i + 1 < attempts && i + 1 < events.len() && events[i + 1].is_confirmed());
        }
        if exists|i: int|
            0 <= i < attempts && i < events.len() && (#[trigger] events[i]).is_confirmed() {
            let i = choose|i: int|
                0 <= i < attempts && i < events.len() && (#[trigger] events[i]).is_confirmed();
            assert(i != 0);
            assert(rest[i - 1] == events[i]);
            assert(0 <= i - 1 < attempts - 1 && i - 1 < rest.len() && rest[i - 1].is_confirmed());
        }
    }
}

/// The retry loop, one observed attempt at a time.  The caller performs the
/// network work for an attempt, hands the event in, and stops as soon as an
/// outcome is returned.
pub struct RetryingSubmitter {
    pub attempts_left: u8,
}

impl RetryingSubmitter {
    /// A fresh submission with the full attempt budget.
    pub fn new() -> (s: Self)
        ensures
            s.attempts_left == RETRIES,
    {
        RetryingSubmitter { attempts_left: RETRIES }
    }

    /// Feed the event of one attempt.  A confirmation ends the submission at
    /// once; any other event consumes an attempt, and consuming the last one
    /// ends the submission as failed.
    pub fn observe(&mut self, event: AttemptEvent) -> (outcome: Option<SubmissionOutcome>)
        requires
            old(self).attempts_left > 0,
        ensures
            event matches AttemptEvent::Confirmed(signature) ==> {
                &&& outcome == Some(SubmissionOutcome::Confirmed(signature))
                &&& final(self).attempts_left == old(self).attempts_left
            },
            !event.is_confirmed() ==> {
                &&& final(self).attempts_left == old(self).attempts_left - 1
                &&& outcome == (if old(self).attempts_left == 1 {
                    Some(SubmissionOutcome::Failed)
                } else {
                    None::<SubmissionOutcome>
                })
            },
    {
        match event {
            AttemptEvent::Confirmed(signature) => Some(SubmissionOutcome::Confirmed(signature)),
            _ => {
                self.attempts_left = self.attempts_left - 1;
                if self.attempts_left == 0 {
                    Some(SubmissionOutcome::Failed)
                } else {
                    None
                }
            },
        }
    }
}

/// Whether an outcome is a confirmation, for threading submission results
/// into the per-item bookkeeping.
pub fn outcome_confirmed(outcome: &SubmissionOutcome) -> (confirmed: bool)
    ensures
        confirmed == outcome.is_confirmed(),
{
    matches!(outcome, SubmissionOutcome::Confirmed(_))
}

/// Run a whole submission over the attempt events it would observe.  The
/// event list must cover the attempt budget; events beyond the first
/// confirmation (or beyond the budget) are never looked at.
pub fn submit_with_events(events: &Vec<AttemptEvent>) -> (outcome: SubmissionOutcome)
    requires
        events@.len() >= RETRIES,
    ensures
        outcome == outcome_of(events@, RETRIES as nat),
{
    let mut submitter = RetryingSubmitter::new();
    let mut reached: Option<SubmissionOutcome> = None;
    let mut i: usize = 0;
    assert(events@.skip(0) =~= events@);
    while reached.is_none()
        invariant
            events@.len() >= RETRIES,
            i <= RETRIES,
            reached is None ==> {
                &&& 0 < submitter.attempts_left <= RETRIES
                &&& i == RETRIES - submitter.attempts_left
                &&& outcome_of(events@, RETRIES as nat) == outcome_of(
                    events@.skip(i as int),
                    submitter.attempts_left as nat,
                )
            },
            reached matches Some(done) ==> done == outcome_of(events@, RETRIES as nat),
        decreases RETRIES - i,
    {
        assert(events@.skip(i as int).len() > 0);
        let event = match &events[i] {
            AttemptEvent::BlockRefUnavailable => AttemptEvent::BlockRefUnavailable,
            AttemptEvent::NotConfirmed => AttemptEvent::NotConfirmed,
            AttemptEvent::Confirmed(signature) => AttemptEvent::Confirmed(signature.clone()),
        };
        assert(event == events@.skip(i as int)[0]);
        assert(events@.skip(i as int).drop_first() =~= events@.skip(i + 1));
        reached = submitter.observe(event);
        i = i + 1;
    }
    match reached {
        Some(outcome) => outcome,
        None => SubmissionOutcome::Failed,
    }
}

} // verus!
