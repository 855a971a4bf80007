//! The registry of the checks of an application, and the query that asks
//! each of them and combines their answers.

use vstd::prelude::*;

use std::time::Duration;

use crate::app_health::{components_of, is_worst_status, lemma_component_names, AppHealth};
use crate::check::CheckHealth;
use crate::health::{Health, HealthView};
use crate::reactive::ReactiveHealthCheck;
use crate::status::HealthStatus;
use crate::time_limit::{CheckEvent, CheckStep, TimeLimitedCheck};

verus! {

/// The duration of that many milliseconds.
pub uninterp spec fn duration_of_millis(millis: u64) -> Duration;

/// `Duration::from_millis`: the duration of that many milliseconds, the same
/// for the same number.
pub assume_specification[ Duration::from_millis ](millis: u64) -> (duration: Duration)
    ensures
        duration == duration_of_millis(millis),
;

/// A check of the registry: the check of an observable cell, or a check of
/// the application's own kind.
#[derive(Debug, Clone)]
pub enum Component<C> {
    Reactive(ReactiveHealthCheck),
    Custom(C),
}

impl<C: CheckHealth> CheckHealth for Component<C> {
    open spec fn may_be_named(&self, name: Seq<char>) -> bool {
        match self {
            Component::Reactive(check) => check.may_be_named(name),
            Component::Custom(check) => check.may_be_named(name),
        }
    }

    open spec fn may_answer(&self, health: HealthView) -> bool {
        match self {
            Component::Reactive(check) => check.may_answer(health),
            Component::Custom(check) => check.may_answer(health),
        }
    }

    /// The name that the check gives for itself.
    fn name(&self) -> (name: &'static str) {
        match self {
            Component::Reactive(check) => check.name(),
            Component::Custom(check) => check.name(),
        }
    }

    /// The answer of the check.
    fn check_health(&self) -> Health {
        match self {
            Component::Reactive(check) => check.check_health(),
            Component::Custom(check) => check.check_health(),
        }
    }
}

/// A check together with the name under which it was registered.
#[derive(Debug, Clone)]
pub struct Registered<C> {
    name: &'static str,
    check: Component<C>,
}

impl<C> Registered<C> {
    /// The name under which the check was registered.
    pub closed spec fn spec_name(&self) -> Seq<char> {
        self.name@
    }

    /// The check itself.
    pub closed spec fn spec_check(&self) -> Component<C> {
        self.check
    }

    /// The name under which the check was registered.
    pub fn name(&self) -> (name: &'static str)
        ensures
            name@ == self.spec_name(),
    {
        self.name
    }

    /// The check itself.
    pub fn check(&self) -> (check: &Component<C>)
        ensures
            *check == self.spec_check(),
    {
        &self.check
    }
}

/// What an [`AppHealthCheck`] holds.
pub struct AppHealthCheckView<C> {
    /// The names of the registered checks, in the order of registration.
    pub names: Seq<Seq<char>>,
    /// The registered checks, each at the place of its name.
    pub checks: Seq<Component<C>>,
    /// The time after which a check is reported as running long.
    pub slow_time_limit: Duration,
    /// The time after which a check is given up.
    pub hard_time_limit: Duration,
}

impl<C> AppHealthCheckView<C> {
    /// A registry without checks.
    pub open spec fn empty(slow_time_limit: Duration, hard_time_limit: Duration) -> Self {
        AppHealthCheckView {
            names: Seq::empty(),
            checks: Seq::empty(),
            slow_time_limit,
            hard_time_limit,
        }
    }

    /// The registry with one more check, registered under `name` after all
    /// the others.
    pub open spec fn with(self, name: Seq<char>, check: Component<C>) -> Self {
        AppHealthCheckView {
            names: self.names.push(name),
            checks: self.checks.push(check),
            ..self
        }
    }
}

/// Whether `outcomes` holds one outcome for each of the checks, in their
/// order: under the name of the check, and with a health that the check may
/// answer with.
pub open spec fn is_reported_by<C: CheckHealth>(
    outcomes: Seq<(&'static str, Health)>,
    names: Seq<Seq<char>>,
    checks: Seq<Component<C>>,
) -> bool {
    &&& outcomes.len() == names.len()
    &&& outcomes.len() == checks.len()
    &&& forall|i: int|
        0 <= i < outcomes.len() ==> (#[trigger] outcomes[i]).0@ == names[i] && checks[i].may_answer(
            outcomes[i].1@,
        )
}

/// Application health check aggregating health from multiple components.
#[derive(Debug)]
pub struct AppHealthCheck<C: CheckHealth> {
    components: Vec<Registered<C>>,
    slow_time_limit: Duration,
    hard_time_limit: Duration,
}

impl<C: CheckHealth> View for AppHealthCheck<C> {
    type V = AppHealthCheckView<C>;

    closed spec fn view(&self) -> AppHealthCheckView<C> {
        AppHealthCheckView {
            names: self.components@.map_values(|entry: Registered<C>| entry.spec_name()),
            checks: self.components@.map_values(|entry: Registered<C>| entry.spec_check()),
            slow_time_limit: self.slow_time_limit,
            hard_time_limit: self.hard_time_limit,
        }
    }
}

impl<C: CheckHealth> Default for AppHealthCheck<C> {
    /// A registry without checks, with a soft limit of 500 ms and a hard
    /// limit of 5 s.
    fn default() -> (checks: Self)
        ensures
            checks@ == AppHealthCheckView::<C>::empty(
                duration_of_millis(500),
                duration_of_millis(5_000),
            ),
    {
        Self::new(Duration::from_millis(500), Duration::from_millis(5_000))
    }
}

impl<C: CheckHealth> AppHealthCheck<C> {
    /// A registry without checks, with the given time limits.
    pub fn new(slow_time_limit: Duration, hard_time_limit: Duration) -> (checks: Self)
        ensures
            checks@ == AppHealthCheckView::<C>::empty(slow_time_limit, hard_time_limit),
    {
        let checks = Self { components: Vec::new(), slow_time_limit, hard_time_limit };
        assert(checks@.names =~= Seq::empty());
        assert(checks@.checks =~= Seq::empty());
        checks
    }

    /// The time after which a check is reported as running long.
    pub fn slow_time_limit(&self) -> (limit: Duration)
        ensures
            limit == self@.slow_time_limit,
    {
        self.slow_time_limit
    }

    /// The time after which a check is given up and counts as `NotReady`.
    pub fn hard_time_limit(&self) -> (limit: Duration)
        ensures
            limit == self@.hard_time_limit,
    {
        self.hard_time_limit
    }

    /// The registered checks, in the order of registration.
    pub fn components(&self) -> (list: &Vec<Registered<C>>)
        ensures
            list@.len() == self@.names.len(),
            list@.len() == self@.checks.len(),
            forall|i: int|
                0 <= i < list@.len() ==> (#[trigger] list@[i]).spec_name() == self@.names[i]
                    && list@[i].spec_check() == self@.checks[i],
    {
        &self.components
    }

    /// Inserts health check for a component. Returns whether a check of the
    /// same name was registered before: it stays registered, but in the
    /// health of the application the new check takes its place.
    pub fn insert_component(&mut self, health_check: ReactiveHealthCheck) -> (redefined: bool)
        ensures
            final(self)@ == old(self)@.with(
                health_check.spec_name(),
                Component::Reactive(health_check),
            ),
            redefined == old(self)@.names.contains(health_check.spec_name()),
    {
        let name = health_check.name();
        self.insert_named(name, Component::Reactive(health_check))
    }

    /// Inserts a custom health check for a component, under the name that the
    /// check gives for itself. Returns whether a check of the same name was
    /// registered before: it stays registered, but in the health of the
    /// application the new check takes its place.
    pub fn insert_custom_component(&mut self, health_check: C) -> (redefined: bool)
        ensures
            final(self)@.names.len() == old(self)@.names.len() + 1,
            health_check.may_be_named(final(self)@.names.last()),
            final(self)@ == old(self)@.with(
                final(self)@.names.last(),
                Component::Custom(health_check),
            ),
            redefined == old(self)@.names.contains(final(self)@.names.last()),
    {
        let name = health_check.name();
        self.insert_named(name, Component::Custom(health_check))
    }

    /// Inserts a check under the given name. Returns whether a check of that
    /// name was registered before.
    pub fn insert_named(
        &mut self,
        name: &'static str,
        health_check: Component<C>,
    ) -> (redefined: bool)
        ensures
            final(self)@ == old(self)@.with(name@, health_check),
            redefined == old(self)@.names.contains(name@),
    {
        let redefined = self.is_registered(name);
        self.components.push(Registered { name, check: health_check });
        assert(final(self)@.names =~= old(self)@.names.push(name@));
        assert(final(self)@.checks =~= old(self)@.checks.push(health_check));
        redefined
    }

    /// Whether a check is registered under this name.
    pub fn is_registered(&self, name: &str) -> (registered: bool)
        ensures
            registered == self@.names.contains(name@),
    {
        let mut at: usize = 0;
        while at < self.components.len()
            invariant
                at <= self.components@.len(),
                forall|i: int| 0 <= i < at ==> self@.names[i] != name@,
            decreases self.components@.len() - at,
        {
            if self.components[at].name.eq(name) {
                assert(self@.names[at as int] == name@);
                return true;
            }
            at += 1;
        }
        false
    }

    /// Checks the overall application health: asks every registered check in
    /// the order of registration and combines the answers, each under the
    /// name of its check.
    ///
    /// Every check is asked by a plain call, which is awaited to its end and
    /// which no timer interrupts: each answer counts as given in time. A
    /// driver that can wait for a timer as well takes each check through a
    /// [`TimeLimitedCheck`] of its own and hands what was recorded to
    /// [`AppHealth::aggregate`].
    pub fn check_health(&self) -> (health: AppHealth)
        ensures
            exists|outcomes: Seq<(&'static str, Health)>|
                is_reported_by(outcomes, self@.names, self@.checks) && health@.components
                    == components_of(outcomes),
            forall|name: Seq<char>| #[trigger]
                health@.components.contains_key(name) <==> self@.names.contains(name),
            health@.inner.details.is_none(),
            is_worst_status(health@.inner.status, health@.components),
            self@.names.len() == 0 ==> health@.inner.status == HealthStatus::Ready,
    {
        let mut outcomes: Vec<(&'static str, Health)> = Vec::new();
        let mut at: usize = 0;
        while at < self.components.len()
            invariant
                at <= self.components@.len(),
                is_reported_by(
                    outcomes@,
                    self@.names.take(at as int),
                    self@.checks.take(at as int),
                ),
            decreases self.components@.len() - at,
        {
            outcomes.push(check_health_with_time_limit(&self.components[at]));
            at += 1;
        }
        proof {
            assert(self@.names.take(at as int) =~= self@.names);
            assert(self@.checks.take(at as int) =~= self@.checks);
            lemma_component_names(outcomes@);
            assert forall|name: Seq<char>| #[trigger]
                components_of(outcomes@).contains_key(name) <==> self@.names.contains(name) by {
                if components_of(outcomes@).contains_key(name) {
                    let i = choose|i: int|
                        0 <= i < outcomes@.len() && (#[trigger] outcomes@[i]).0@ == name;
                    assert(self@.names[i] == name);
                }
                if self@.names.contains(name) {
                    let i = choose|i: int| 0 <= i < self@.names.len() && self@.names[i] == name;
                    assert(outcomes@[i].0@ == name);
                }
            }
        }
        AppHealth::aggregate(outcomes)
    }
}

/// Asks one check and waits for its answer. The wait is a plain call: no
/// limit can pass before the answer is there, so the answer is what is
/// recorded for the component.
fn check_health_with_time_limit<C: CheckHealth>(entry: &Registered<C>) -> (outcome: (
    &'static str,
    Health,
))
    ensures
        outcome.0@ == entry.spec_name(),
        entry.spec_check().may_answer(outcome.1@),
{
    let mut wait = TimeLimitedCheck::start(entry.name);
    let answer = entry.check.check_health();
    match wait.advance(CheckEvent::Completed(answer)) {
        CheckStep::Record(outcome) => outcome,
        _ => unreached(),
    }
}

} // verus!
