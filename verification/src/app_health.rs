//! The health of an application: the health of each of its components, and
//! the overall health that follows from them.

use vstd::prelude::*;

use crate::health::{Health, HealthView};
use crate::status::{lemma_healthy_iff_low_priority, lemma_priority_is_injective, HealthStatus};

verus! {

/// The health of each component by its name. Where a name occurs more than
/// once among the outcomes, the last outcome of that name is the one that
/// counts.
pub open spec fn components_of(outcomes: Seq<(&'static str, Health)>) -> Map<
    Seq<char>,
    HealthView,
>
    decreases outcomes.len(),
{
    if outcomes.len() == 0 {
        Map::empty()
    } else {
        components_of(outcomes.drop_last()).insert(outcomes.last().0@, outcomes.last().1@)
    }
}

/// Whether `status` is the overall status of an application with these
/// components: `Ready` if there is no component, otherwise the status of one
/// of them that none of the others exceeds in priority.
pub open spec fn is_worst_status(
    status: HealthStatus,
    components: Map<Seq<char>, HealthView>,
) -> bool {
    &&& forall|name: Seq<char>| #[trigger]
        components.contains_key(name) ==> components[name].status.priority() <= status.priority()
    &&& if components.dom() =~= Set::<Seq<char>>::empty() {
        status == HealthStatus::Ready
    } else {
        exists|name: Seq<char>| #[trigger]
            components.contains_key(name) && components[name].status == status
    }
}

/// No name occurs twice among the outcomes.
pub open spec fn has_distinct_names(outcomes: Seq<(&'static str, Health)>) -> bool {
    forall|i: int, j: int|
        0 <= i < j < outcomes.len() ==> (#[trigger] outcomes[i]).0@ != (#[trigger] outcomes[j]).0@
}

/// What an [`AppHealth`] says.
pub struct AppHealthView {
    /// The overall health.
    pub inner: HealthView,
    /// The health of each component by its name.
    pub components: Map<Seq<char>, HealthView>,
}

/// Health information for an application consisting of multiple components.
#[derive(Debug)]
pub struct AppHealth {
    inner: Health,
    /// The components with their health, each name once.
    components: Vec<(&'static str, Health)>,
}

impl View for AppHealth {
    type V = AppHealthView;

    closed spec fn view(&self) -> AppHealthView {
        AppHealthView {
            inner: self.inner@,
            components: components_of(self.components@),
        }
    }
}

impl AppHealth {
    #[verifier::type_invariant]
    spec fn well_formed(self) -> bool {
        &&& has_distinct_names(self.components@)
        &&& self.inner@.details.is_none()
        &&& is_worst_status(self.inner@.status, components_of(self.components@))
    }

    /// Combines what the components reported into the health of the
    /// application. Of two outcomes with the same name the later one counts.
    /// The overall health has the worst status among the components that
    /// count (`Ready` if there is none) and no details.
    pub fn aggregate(outcomes: Vec<(&'static str, Health)>) -> (health: AppHealth)
        ensures
            health@.components == components_of(outcomes@),
            health@.inner.details.is_none(),
            is_worst_status(health@.inner.status, health@.components),
            outcomes@.len() == 0 ==> health@.inner.status == HealthStatus::Ready,
    {
        let ghost reported = outcomes@;
        let mut components: Vec<(&'static str, Health)> = Vec::new();
        for outcome in it: outcomes
            invariant
                reported == it.seq(),
                has_distinct_names(components@),
                components_of(components@) == components_of(
                    reported.take(it.index() as int),
                ),
        {
            let ghost before = components@;
            proof {
                assert(reported.take(it.index() + 1).drop_last() =~= reported.take(
                    it.index() as int,
                ));
                lemma_distinct_names_lookup(before);
            }
            match position_of(&components, outcome.0) {
                Some(at) => {
                    components[at] = outcome;
                    proof {
                        lemma_replacing_is_inserting(before, at as int, outcome);
                    }
                },
                None => {
                    components.push(outcome);
                    proof {
                        assert(components@.drop_last() =~= before);
                    }
                },
            }
        }
        proof {
            assert(reported.take(reported.len() as int) =~= reported);
        }
        let status = worst_status_of(&components);
        AppHealth { inner: Health::new(status), components }
    }

    /// Whether the application as a whole is healthy.
    pub fn is_healthy(&self) -> (healthy: bool)
        ensures
            healthy == self@.inner.status.spec_is_healthy(),
    {
        self.inner.status().is_healthy()
    }

    /// The overall health of the application: the worst status among its
    /// components, without details.
    pub fn inner(&self) -> (inner: &Health)
        ensures
            inner@ == self@.inner,
            inner@.details.is_none(),
            is_worst_status(inner@.status, self@.components),
    {
        proof {
            use_type_invariant(self);
        }
        &self.inner
    }

    /// The health of the component of this name, if there is one.
    pub fn component(&self, name: &str) -> (found: Option<&Health>)
        ensures
            match found {
                Some(health) => self@.components.contains_key(name@) && health@
                    == self@.components[name@],
                None => !self@.components.contains_key(name@),
            },
    {
        proof {
            use_type_invariant(self);
            lemma_distinct_names_lookup(self.components@);
        }
        match position_of(&self.components, name) {
            Some(at) => Some(&self.components[at].1),
            None => None,
        }
    }

    /// The components with their health, each name once, in the order in
    /// which the names were first reported.
    pub fn components(&self) -> (list: &Vec<(&'static str, Health)>)
        ensures
            has_distinct_names(list@),
            self@.components == components_of(list@),
            forall|i: int|
                0 <= i < list@.len() ==> self@.components.contains_key((#[trigger] list@[i]).0@)
                    && self@.components[list@[i].0@] == list@[i].1@,
            forall|name: Seq<char>| #[trigger]
                self@.components.contains_key(name) ==> exists|i: int|
                    0 <= i < list@.len() && (#[trigger] list@[i]).0@ == name,
    {
        proof {
            use_type_invariant(self);
            lemma_distinct_names_lookup(self.components@);
        }
        &self.components
    }
}

/// The place of the component called `name` in a list of distinct names.
fn position_of(components: &Vec<(&'static str, Health)>, name: &str) -> (found: Option<usize>)
    ensures
        match found {
            Some(at) => at < components@.len() && components@[at as int].0@ == name@,
            None => forall|i: int| 0 <= i < components@.len() ==> components@[i].0@ != name@,
        },
{
    let mut at: usize = 0;
    while at < components.len()
        invariant
            at <= components@.len(),
            forall|i: int| 0 <= i < at ==> components@[i].0@ != name@,
        decreases components@.len() - at,
    {
        if components[at].0.eq(name) {
            return Some(at);
        }
        at += 1;
    }
    None
}

/// The worst status among components of distinct names.
fn worst_status_of(components: &Vec<(&'static str, Health)>) -> (worst: HealthStatus)
    requires
        has_distinct_names(components@),
    ensures
        is_worst_status(worst, components_of(components@)),
        components@.len() == 0 ==> worst == HealthStatus::Ready,
{
    let mut worst = HealthStatus::Ready;
    let mut at: usize = 0;
    while at < components.len()
        invariant
            at <= components@.len(),
            forall|i: int| 0 <= i < at ==> components@[i].1@.status.priority() <= worst.priority(),
            if at == 0 {
                worst == HealthStatus::Ready
            } else {
                exists|i: int| 0 <= i < at && components@[i].1@.status == worst
            },
        decreases components@.len() - at,
    {
        worst = worst.worse_of(components[at].1.status());
        at += 1;
    }
    proof {
        let reported = components@;
        lemma_distinct_names_lookup(reported);
        if components@.len() > 0 {
            let i = choose|i: int| 0 <= i < at && components@[i].1@.status == worst;
            assert(components_of(reported).contains_key(reported[i].0@));
        }
    }
    worst
}

/// Among outcomes of distinct names, putting an outcome in the place of the
/// one that has its name is inserting it among the components.
proof fn lemma_replacing_is_inserting(
    before: Seq<(&'static str, Health)>,
    at: int,
    outcome: (&'static str, Health),
)
    requires
        has_distinct_names(before),
        0 <= at < before.len(),
        before[at].0@ == outcome.0@,
    ensures
        has_distinct_names(before.update(at, outcome)),
        components_of(before.update(at, outcome)) == components_of(before).insert(
            outcome.0@,
            outcome.1@,
        ),
{
    let after = before.update(at, outcome);
    let old_map = components_of(before);
    let new_map = components_of(after);
    let inserted = old_map.insert(outcome.0@, outcome.1@);
    assert(has_distinct_names(after)) by {
        assert forall|i: int, j: int| 0 <= i < j < after.len() implies (#[trigger] after[i]).0@ != (
        #[trigger] after[j]).0@ by {
            assert(before[i].0@ != before[j].0@);
        }
    }
    lemma_distinct_names_lookup(before);
    lemma_distinct_names_lookup(after);
    assert forall|name: Seq<char>| new_map.contains_key(name) <==> inserted.contains_key(
        name,
    ) by {
        if new_map.contains_key(name) {
            let i = choose|i: int| 0 <= i < after.len() && (#[trigger] after[i]).0@ == name;
            assert(before[i].0@ == name);
        }
        if old_map.contains_key(name) {
            let i = choose|i: int| 0 <= i < before.len() && (#[trigger] before[i]).0@ == name;
            assert(after[i].0@ == name);
        }
        if name == outcome.0@ {
            assert(after[at].0@ == name);
        }
    }
    assert forall|name: Seq<char>| new_map.contains_key(name) implies new_map[name]
        == inserted[name] by {
        let i = choose|i: int| 0 <= i < after.len() && (#[trigger] after[i]).0@ == name;
        if i != at {
            assert(before[i] == after[i]);
            if i < at {
                assert(before[i].0@ != before[at].0@);
            } else {
                assert(before[at].0@ != before[i].0@);
            }
        }
    }
    assert(new_map =~= inserted);
}

/// The overall status of an application is determined by its components: no
/// two statuses are both the worst.
pub proof fn lemma_worst_status_is_unique(
    components: Map<Seq<char>, HealthView>,
    one: HealthStatus,
    other: HealthStatus,
)
    requires
        is_worst_status(one, components),
        is_worst_status(other, components),
    ensures
        one == other,
{
    if !(components.dom() =~= Set::<Seq<char>>::empty()) {
        let first = choose|name: Seq<char>| #[trigger]
            components.contains_key(name) && components[name].status == one;
        let second = choose|name: Seq<char>| #[trigger]
            components.contains_key(name) && components[name].status == other;
        assert(components[first].status.priority() <= other.priority());
        assert(components[second].status.priority() <= one.priority());
        lemma_priority_is_injective(one, other);
    }
}

/// No component is worse than the application as a whole: a component that
/// is not healthy, such as one whose check was given up and counts as
/// `NotReady`, makes the application unhealthy.
pub proof fn lemma_worst_status_dominates(
    components: Map<Seq<char>, HealthView>,
    overall: HealthStatus,
    name: Seq<char>,
)
    requires
        is_worst_status(overall, components),
        components.contains_key(name),
    ensures
        components[name].status.priority() <= overall.priority(),
        !components[name].status.spec_is_healthy() ==> !overall.spec_is_healthy(),
        components[name].status == HealthStatus::NotReady ==> overall == HealthStatus::NotReady
            || overall == HealthStatus::Panicked,
{
    lemma_healthy_iff_low_priority(components[name].status);
    lemma_healthy_iff_low_priority(overall);
}

/// The worst status dominates: an application is healthy exactly when each
/// of its components is. One component that is not ready, shut down or
/// panicked makes the whole application unhealthy.
pub proof fn lemma_healthy_iff_every_component_is(
    components: Map<Seq<char>, HealthView>,
    overall: HealthStatus,
)
    requires
        is_worst_status(overall, components),
    ensures
        overall.spec_is_healthy() <==> forall|name: Seq<char>| #[trigger]
            components.contains_key(name) ==> components[name].status.spec_is_healthy(),
{
    if components.dom() =~= Set::<Seq<char>>::empty() {
        assert forall|name: Seq<char>| #[trigger] components.contains_key(name) implies
            components[name].status.spec_is_healthy() by {
            assert(components.dom().contains(name));
        }
    } else {
        let worst = choose|name: Seq<char>| #[trigger]
            components.contains_key(name) && components[name].status == overall;
        if overall.spec_is_healthy() {
            assert forall|name: Seq<char>| #[trigger] components.contains_key(name) implies
                components[name].status.spec_is_healthy() by {
                lemma_healthy_iff_low_priority(components[name].status);
                lemma_healthy_iff_low_priority(overall);
            }
        } else {
            assert(components.contains_key(worst));
        }
    }
}

/// The components are the names that occur among the outcomes.
pub proof fn lemma_component_names(outcomes: Seq<(&'static str, Health)>)
    ensures
        forall|name: Seq<char>| #[trigger]
            components_of(outcomes).contains_key(name) <==> exists|i: int|
                0 <= i < outcomes.len() && (#[trigger] outcomes[i]).0@ == name,
    decreases outcomes.len(),
{
    if outcomes.len() > 0 {
        let earlier = outcomes.drop_last();
        let last = outcomes.last();
        lemma_component_names(earlier);
        assert forall|name: Seq<char>| #[trigger]
            components_of(outcomes).contains_key(name) implies exists|i: int|
            0 <= i < outcomes.len() && (#[trigger] outcomes[i]).0@ == name by {
            if name == last.0@ {
                assert(outcomes[outcomes.len() - 1].0@ == name);
            } else {
                assert(components_of(earlier).contains_key(name));
                let i = choose|i: int|
                    0 <= i < earlier.len() && (#[trigger] earlier[i]).0@ == name;
                assert(outcomes[i].0@ == name);
            }
        }
        assert forall|name: Seq<char>|
            (exists|i: int| 0 <= i < outcomes.len() && (#[trigger] outcomes[i]).0@ == name)
            implies #[trigger] components_of(outcomes).contains_key(name) by {
            let i = choose|i: int| 0 <= i < outcomes.len() && (#[trigger] outcomes[i]).0@ == name;
            if i < outcomes.len() - 1 {
                assert(earlier[i].0@ == name);
                assert(components_of(earlier).contains_key(name));
            }
        }
    }
}

/// Of several outcomes with one name the last is the one that counts: an
/// outcome that no later outcome shares its name with gives the health of its
/// component.
pub proof fn lemma_last_outcome_counts(outcomes: Seq<(&'static str, Health)>, at: int)
    requires
        0 <= at < outcomes.len(),
        forall|later: int| at < later < outcomes.len() ==> (#[trigger] outcomes[later]).0@
            != outcomes[at].0@,
    ensures
        components_of(outcomes).contains_key(outcomes[at].0@),
        components_of(outcomes)[outcomes[at].0@] == outcomes[at].1@,
    decreases outcomes.len(),
{
    if at < outcomes.len() - 1 {
        let earlier = outcomes.drop_last();
        assert(outcomes[outcomes.len() - 1].0@ != outcomes[at].0@);
        assert forall|later: int| at < later < earlier.len() implies (#[trigger] earlier[later]).0@
            != earlier[at].0@ by {
            assert(outcomes[later].0@ != outcomes[at].0@);
        }
        lemma_last_outcome_counts(earlier, at);
    }
}

/// Among outcomes of distinct names, the components are the names that occur,
/// each with the health that was reported under it.
pub proof fn lemma_distinct_names_lookup(outcomes: Seq<(&'static str, Health)>)
    requires
        has_distinct_names(outcomes),
    ensures
        forall|name: Seq<char>| #[trigger]
            components_of(outcomes).contains_key(name) <==> exists|i: int|
                0 <= i < outcomes.len() && (#[trigger] outcomes[i]).0@ == name,
        forall|i: int|
            0 <= i < outcomes.len() ==> components_of(outcomes).contains_key(
                (#[trigger] outcomes[i]).0@,
            ) && components_of(outcomes)[outcomes[i].0@] == outcomes[i].1@,
{
    lemma_component_names(outcomes);
    assert forall|i: int| 0 <= i < outcomes.len() implies components_of(outcomes).contains_key(
        (#[trigger] outcomes[i]).0@,
    ) && components_of(outcomes)[outcomes[i].0@] == outcomes[i].1@ by {
        lemma_last_outcome_counts(outcomes, i);
    }
}

} // verus!
