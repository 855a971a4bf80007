//! The interface through which a component is asked for its health.

use vstd::prelude::*;

use crate::health::{Health, HealthView};

verus! {

/// `PartialEq::eq` of `str`: two names are equal when they hold the same
/// characters in the same order.
pub assume_specification[ <str as PartialEq>::eq ](left: &str, right: &str) -> (same: bool)
    ensures
        same == (left@ == right@),
;

/// Interface to be used for health checks.
///
/// A check may be asked any number of times, also by several callers at once,
/// and a call may take a while. Of what an implementation answers nothing is
/// assumed but what the implementation itself promises, in
/// [`Self::may_be_named`] and [`Self::may_answer`]; left as they are, they
/// promise nothing. Functions that ask a check state what holds of every
/// answer that it may give.
pub trait CheckHealth: Send + Sync + 'static {
    /// Whether the check may give `name` as the name of its component.
    open spec fn may_be_named(&self, name: Seq<char>) -> bool {
        true
    }

    /// Whether the check may answer with `health`.
    open spec fn may_answer(&self, health: HealthView) -> bool {
        true
    }

    /// Unique name of the component.
    fn name(&self) -> (name: &'static str)
        ensures
            self.may_be_named(name@),
    ;

    /// Checks health of the component.
    fn check_health(&self) -> (health: Health)
        ensures
            self.may_answer(health@),
    ;
}

} // verus!
