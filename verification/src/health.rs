//! The health of a single component: a status and optional details.

use vstd::prelude::*;
use vstd::std_specs::cmp::PartialEqSpecImpl;
use vstd::std_specs::convert::FromSpecImpl;

use crate::status::HealthStatus;

verus! {

/// A JSON document of `serde_json`. Its contents are not modelled: the library
/// only stores such a document, copies it and compares two of them.
#[verifier::external_type_specification]
#[verifier::external_body]
pub struct ExJsonValue(serde_json::Value);

/// `Clone::clone` of `serde_json::Value`, which `serde_json` derives: the
/// copy is the same document as the one that was copied.
pub assume_specification[ <serde_json::Value as Clone>::clone ](
    value: &serde_json::Value,
) -> (copy: serde_json::Value)
    ensures
        copy == *value,
;

/// `PartialEq::eq` of `serde_json::Value`, which `serde_json` derives and
/// which is an equivalence (numbers are never NaN). Two documents are the same
/// value of the model exactly when `serde_json` finds them equal.
pub assume_specification[ <serde_json::Value as PartialEq>::eq ](
    left: &serde_json::Value,
    right: &serde_json::Value,
) -> (same: bool)
    ensures
        same == (*left == *right),
;

/// What a [`Health`] says: the status, and the details if there are any.
pub struct HealthView {
    pub status: HealthStatus,
    pub details: Option<serde_json::Value>,
}

impl HealthView {
    /// A health of the given status without details.
    pub open spec fn bare(status: HealthStatus) -> HealthView {
        HealthView { status, details: None }
    }
}

/// Health of a single component.
#[derive(Debug)]
pub struct Health {
    status: HealthStatus,
    /// Component-specific details allowing to assess whether the component is healthy or not.
    details: Option<serde_json::Value>,
}

impl View for Health {
    type V = HealthView;

    closed spec fn view(&self) -> HealthView {
        HealthView { status: self.status, details: self.details }
    }
}

impl Health {
    /// A health of the given status without details. This is what
    /// `Health::from` returns.
    pub fn new(status: HealthStatus) -> (health: Health)
        ensures
            health@ == HealthView::bare(status),
        opens_invariants none
        no_unwind
    {
        Health { status, details: None }
    }

    /// Sets health details, replacing earlier ones. The status is kept.
    #[must_use]
    pub fn with_details(self, details: serde_json::Value) -> (health: Health)
        ensures
            health@ == (HealthView { status: self@.status, details: Some(details) }),
    {
        Health { status: self.status, details: Some(details) }
    }

    /// Returns the overall health status.
    pub fn status(&self) -> (status: HealthStatus)
        ensures
            status == self@.status,
    {
        self.status
    }

    /// Returns the details, if any were set.
    pub fn details(&self) -> (details: Option<&serde_json::Value>)
        ensures
            match details {
                Some(value) => self@.details == Some(*value),
                None => self@.details.is_none(),
            },
    {
        self.details.as_ref()
    }
}

impl Clone for Health {
    fn clone(&self) -> (copy: Self)
        ensures
            copy@ == self@,
    {
        Health { status: self.status, details: self.details.clone() }
    }
}

impl PartialEq for Health {
    /// Two healths are equal when both the status and the details are: a change
    /// of the details alone makes a different health.
    fn eq(&self, other: &Self) -> (same: bool) {
        self.status == other.status && match (&self.details, &other.details) {
            (None, None) => true,
            (Some(mine), Some(theirs)) => mine.eq(theirs),
            _ => false,
        }
    }
}

impl PartialEqSpecImpl for Health {
    open spec fn obeys_eq_spec() -> bool {
        true
    }

    open spec fn eq_spec(&self, other: &Self) -> bool {
        self@ == other@
    }
}

impl From<HealthStatus> for Health {
    fn from(status: HealthStatus) -> (health: Self)
        ensures
            health@ == HealthView::bare(status),
    {
        Health::new(status)
    }
}

impl FromSpecImpl<HealthStatus> for Health {
    open spec fn obeys_from_spec() -> bool {
        true
    }

    closed spec fn from_spec(status: HealthStatus) -> Self {
        Health { status, details: None }
    }
}

/// Two healths are the same exactly when they have the same status and the
/// same details. A health with details is never one without, whatever the
/// details are.
pub proof fn lemma_health_equality_is_structural(one: HealthView, other: HealthView)
    ensures
        one == other <==> one.status == other.status && one.details == other.details,
        one.details.is_some() ==> one != HealthView::bare(one.status),
{
}

} // verus!
