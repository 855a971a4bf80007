//! The two-tier time limit under which one check is asked for its health.
//!
//! Waiting for a check and for a timer is the work of a driver. What the
//! driver does when either of them is done is decided here: a
//! [`TimeLimitedCheck`] takes each event of the wait and answers with the
//! next step.

use vstd::prelude::*;

use crate::health::{Health, HealthView};
use crate::status::HealthStatus;

verus! {

/// Where the wait for the answer of one check stands.
#[derive(Debug, Clone, Copy, PartialEq, Eq, Structural)]
pub enum CheckStage {
    /// The check was asked and its soft limit has not passed.
    WithinSoftLimit,
    /// The soft limit has passed; the same call is awaited until the hard limit.
    RunningLong,
    /// The check answered in time and its answer was recorded.
    Answered,
    /// The hard limit has passed and `NotReady` was recorded in place of an
    /// answer. The call was left to itself: it is neither awaited nor stopped.
    Abandoned,
    /// The call that was abandoned has ended after all.
    AnsweredLate,
}

/// What happened while a driver waited for a check.
#[derive(Debug)]
pub enum CheckEvent {
    /// The check answered with this health.
    Completed(Health),
    /// The limit that the driver was waiting for has passed: the soft limit
    /// at first, the hard limit after that.
    LimitElapsed,
}

/// What a driver does after an event.
#[derive(Debug)]
pub enum CheckStep {
    /// Report that the check takes longer than the soft limit, and go on
    /// waiting for the same call until the hard limit, which is counted from
    /// the moment the check was asked.
    WaitUntilHardLimit,
    /// Record this outcome: the check answered in time.
    Record((&'static str, Health)),
    /// Warn that the check timed out, record this outcome in place of an
    /// answer, and stop waiting for the call without stopping the call itself.
    RecordTimedOut((&'static str, Health)),
    /// Warn that the check ended after it had been given up. The outcome that
    /// was recorded stands.
    WarnLateCompletion,
    /// Nothing: the event came when nothing was awaited any more.
    Ignore,
}

impl CheckStage {
    /// Whether an answer of the check is still awaited in this stage.
    pub open spec fn spec_is_waiting(self) -> bool {
        self == CheckStage::WithinSoftLimit || self == CheckStage::RunningLong
    }

    /// The stage that follows this one when the check has answered.
    pub open spec fn after_completion(self) -> CheckStage {
        match self {
            CheckStage::WithinSoftLimit | CheckStage::RunningLong => CheckStage::Answered,
            CheckStage::Abandoned => CheckStage::AnsweredLate,
            CheckStage::Answered | CheckStage::AnsweredLate => self,
        }
    }

    /// The stage that follows this one when the awaited limit has passed.
    pub open spec fn after_limit(self) -> CheckStage {
        match self {
            CheckStage::WithinSoftLimit => CheckStage::RunningLong,
            CheckStage::RunningLong => CheckStage::Abandoned,
            CheckStage::Answered | CheckStage::Abandoned | CheckStage::AnsweredLate => self,
        }
    }

    /// The stage that follows this one after `event`.
    pub open spec fn after(self, event: CheckEvent) -> CheckStage {
        match event {
            CheckEvent::Completed(_) => self.after_completion(),
            CheckEvent::LimitElapsed => self.after_limit(),
        }
    }

    /// Whether an answer of the check is still awaited in this stage.
    #[verifier::when_used_as_spec(spec_is_waiting)]
    pub fn is_waiting(self) -> (waiting: bool)
        ensures
            waiting == self.spec_is_waiting(),
    {
        matches!(self, CheckStage::WithinSoftLimit | CheckStage::RunningLong)
    }
}

/// Whether `step` is what a driver does when `event` comes in `stage` of the
/// wait for the check called `name`.
pub open spec fn is_step_for(
    stage: CheckStage,
    name: Seq<char>,
    event: CheckEvent,
    step: CheckStep,
) -> bool {
    match (stage, event) {
        (CheckStage::WithinSoftLimit, CheckEvent::Completed(answer))
        | (CheckStage::RunningLong, CheckEvent::Completed(answer)) => {
            &&& step matches CheckStep::Record(outcome)
            &&& outcome.0@ == name
            &&& outcome.1@ == answer@
        },
        (CheckStage::WithinSoftLimit, CheckEvent::LimitElapsed) => {
            step is WaitUntilHardLimit
        },
        (CheckStage::RunningLong, CheckEvent::LimitElapsed) => {
            &&& step matches CheckStep::RecordTimedOut(outcome)
            &&& outcome.0@ == name
            &&& outcome.1@ == HealthView::bare(HealthStatus::NotReady)
        },
        (CheckStage::Abandoned, CheckEvent::Completed(_)) => step is WarnLateCompletion,
        (CheckStage::Abandoned, CheckEvent::LimitElapsed)
        | (CheckStage::Answered, _)
        | (CheckStage::AnsweredLate, _) => step is Ignore,
    }
}

/// The wait for the answer of one check, under a soft and a hard time limit.
#[derive(Debug)]
pub struct TimeLimitedCheck {
    name: &'static str,
    stage: CheckStage,
}

impl TimeLimitedCheck {
    /// The name of the component whose check is awaited.
    pub closed spec fn spec_name(&self) -> Seq<char> {
        self.name@
    }

    /// Where the wait stands.
    pub closed spec fn spec_stage(&self) -> CheckStage {
        self.stage
    }

    /// Begins the wait for the check of the component called `name`: the
    /// driver asks the check, and waits for its answer and for the soft limit.
    pub fn start(name: &'static str) -> (run: TimeLimitedCheck)
        ensures
            run.spec_name() == name@,
            run.spec_stage() == CheckStage::WithinSoftLimit,
    {
        TimeLimitedCheck { name, stage: CheckStage::WithinSoftLimit }
    }

    /// The name of the component whose check is awaited.
    pub fn name(&self) -> (name: &'static str)
        ensures
            name@ == self.spec_name(),
    {
        self.name
    }

    /// Where the wait stands.
    #[verifier::when_used_as_spec(spec_stage)]
    pub fn stage(&self) -> (stage: CheckStage)
        ensures
            stage == self.spec_stage(),
    {
        self.stage
    }

    /// Takes the next event of the wait and says what the driver does now.
    ///
    /// An answer that comes while it is awaited is recorded as it is. When
    /// the soft limit passes the wait goes on; when the hard limit passes too,
    /// `NotReady` is recorded for the component, whatever the check may answer
    /// later.
    pub fn advance(&mut self, event: CheckEvent) -> (step: CheckStep)
        ensures
            final(self).spec_name() == old(self).spec_name(),
            final(self).spec_stage() == old(self).spec_stage().after(event),
            is_step_for(old(self).spec_stage(), old(self).spec_name(), event, step),
    {
        match event {
            CheckEvent::Completed(answer) => match self.stage {
                CheckStage::WithinSoftLimit | CheckStage::RunningLong => {
                    self.stage = CheckStage::Answered;
                    CheckStep::Record((self.name, answer))
                },
                CheckStage::Abandoned => {
                    self.stage = CheckStage::AnsweredLate;
                    CheckStep::WarnLateCompletion
                },
                CheckStage::Answered | CheckStage::AnsweredLate => CheckStep::Ignore,
            },
            CheckEvent::LimitElapsed => match self.stage {
                CheckStage::WithinSoftLimit => {
                    self.stage = CheckStage::RunningLong;
                    CheckStep::WaitUntilHardLimit
                },
                CheckStage::RunningLong => {
                    self.stage = CheckStage::Abandoned;
                    CheckStep::RecordTimedOut((self.name, Health::new(HealthStatus::NotReady)))
                },
                CheckStage::Answered | CheckStage::Abandoned | CheckStage::AnsweredLate => {
                    CheckStep::Ignore
                },
            },
        }
    }
}

/// A check that does not answer before both of its limits have passed is
/// recorded as `NotReady`: the second of two limits that pass after the start
/// of a wait, with no answer before or between them, gives that outcome and
/// ends the waiting.
pub proof fn lemma_silent_check_is_not_ready(name: Seq<char>, step: CheckStep)
    requires
        is_step_for(
            CheckStage::WithinSoftLimit.after(CheckEvent::LimitElapsed),
            name,
            CheckEvent::LimitElapsed,
            step,
        ),
    ensures
        step matches CheckStep::RecordTimedOut(outcome) && outcome.0@ == name && outcome.1@
            == HealthView::bare(HealthStatus::NotReady),
        !CheckStage::WithinSoftLimit.after(CheckEvent::LimitElapsed).after(
            CheckEvent::LimitElapsed,
        ).spec_is_waiting(),
{
}

/// An outcome is recorded at most once in a wait: a step that records one
/// ends the waiting, and once the waiting has ended no event makes a step
/// that records another.
pub proof fn lemma_outcome_is_recorded_once(
    stage: CheckStage,
    name: Seq<char>,
    event: CheckEvent,
    step: CheckStep,
)
    requires
        is_step_for(stage, name, event, step),
    ensures
        (step is Record || step is RecordTimedOut) ==> stage.spec_is_waiting() && !stage.after(
            event,
        ).spec_is_waiting(),
        !stage.spec_is_waiting() ==> !stage.after(event).spec_is_waiting(),
{
}

} // verus!
