//! Bounded wait for a freshly launched service to become reachable.
//!
//! After the spawn, the service is probed at fixed intervals up to a bounded
//! attempt count. Any answer at all ends the wait at once; exhausting the
//! budget ends it too, without an error — readiness is best effort, and an
//! unready service surfaces later as a transport error on the first query.
//! The caller drives the loop: it performs one probe, hands the outcome to
//! [`ProbeSchedule::on_probe`], and sleeps only when told to.

use vstd::prelude::*;
use vstd::arithmetic::mul::lemma_mul_inequality;

verus! {

/// The bounded retry budget of one bootstrap wait.
pub struct ProbeSchedule {
    /// How long to sleep between probes, in milliseconds.
    pub interval_ms: u64,
    /// How many probes may be followed by a sleep and a retry.
    pub max_attempts: u64,
    /// Failed probes so far.
    pub attempts: u64,
}

/// What the caller must do after handing one probe outcome in.
#[derive(Clone, Copy, Debug, PartialEq, Eq, Structural)]
pub enum ProbeStep {
    /// The service answered: stop waiting, it is ready.
    Ready,
    /// Sleep this many milliseconds, then probe again.
    SleepThenRetry(u64),
    /// The budget is exhausted: stop waiting without an error.
    GiveUp,
}

impl ProbeSchedule {
    pub open spec fn wf(self) -> bool {
        self.attempts <= self.max_attempts
    }

    /// A fresh schedule with the whole budget ahead of it.
    pub fn new(interval_ms: u64, max_attempts: u64) -> (s: ProbeSchedule)
        ensures
            s.interval_ms == interval_ms,
            s.max_attempts == max_attempts,
            s.attempts == 0,
            s.wf(),
    {
        ProbeSchedule { interval_ms, max_attempts, attempts: 0 }
    }

    /// Whether the budget is used up, after which the wait ends even if the
    /// service never answered.
    pub fn timeout_reached(&self) -> (r: bool)
        ensures
            r == (self.attempts >= self.max_attempts),
    {
        self.attempts >= self.max_attempts
    }

    /// Takes one probe outcome and says what to do next. Every sleep the
    /// wait ever asks for is accounted against `max_attempts`, so the whole
    /// wait sleeps at most `interval_ms * max_attempts` milliseconds.
    pub fn on_probe(&mut self, reachable: bool) -> (step: ProbeStep)
        requires
            old(self).wf(),
        ensures
            final(self).interval_ms == old(self).interval_ms,
            final(self).max_attempts == old(self).max_attempts,
            final(self).wf(),
            reachable ==> step == ProbeStep::Ready && final(self).attempts == old(self).attempts,
            !reachable && old(self).attempts < old(self).max_attempts ==> step
                == ProbeStep::SleepThenRetry(old(self).interval_ms) && final(self).attempts == old(
                self,
            ).attempts + 1,
            !reachable && old(self).attempts >= old(self).max_attempts ==> step == ProbeStep::GiveUp
                && final(self).attempts == old(self).attempts,
    {
        if reachable {
            ProbeStep::Ready
        } else if self.attempts < self.max_attempts {
            self.attempts = self.attempts + 1;
            ProbeStep::SleepThenRetry(self.interval_ms)
        } else {
            ProbeStep::GiveUp
        }
    }
}

/// How many sleeps a wait with `budget` retries left performs when the
/// successive probes answer as `outcomes` says, a missing entry standing
/// for a probe that got no answer.
pub open spec fn sleeps_used(outcomes: Seq<bool>, budget: nat) -> nat
    decreases budget,
{
    if budget == 0 {
        0
    } else if outcomes.len() > 0 && outcomes[0] {
        0
    } else {
        1 + sleeps_used(outcomes.drop_first(), (budget - 1) as nat)
    }
}

/// The bootstrap wait is bounded: whatever the probe outcomes — even if the
/// service never becomes reachable — it sleeps at most `max_attempts`
/// times, so it ends within `interval * max_attempts` total sleep time.
pub proof fn lemma_wait_bounded(outcomes: Seq<bool>, max_attempts: nat, interval: nat)
    ensures
        sleeps_used(outcomes, max_attempts) <= max_attempts,
        sleeps_used(outcomes, max_attempts) * interval <= max_attempts * interval,
    decreases max_attempts,
{
    if max_attempts > 0 && !(outcomes.len() > 0 && outcomes[0]) {
        lemma_wait_bounded(outcomes.drop_first(), (max_attempts - 1) as nat, interval);
    }
    lemma_mul_inequality(sleeps_used(outcomes, max_attempts) as int, max_attempts as int, interval as int);
}

/// A wait that sees a reachable service stops at once, before any further
/// sleep: success on the first answered probe costs no part of the budget.
pub proof fn lemma_wait_stops_on_success(outcomes: Seq<bool>, budget: nat)
    requires
        outcomes.len() > 0,
        outcomes[0],
    ensures
        sleeps_used(outcomes, budget) == 0,
{
}

} // verus!
