//! The closed set of health states and their order of aggregation.

use vstd::prelude::*;

verus! {

/// Health status returned as a part of `Health`.
#[derive(Debug, Clone, Copy, PartialEq, Eq, Structural)]
pub enum HealthStatus {
    /// Component is initializing and is not ready yet.
    NotReady,
    /// Component is ready for operations.
    Ready,
    /// Component is affected by some non-fatal issue. The component is still considered healthy.
    Affected,
    /// Component has received a termination request and is in the process of shutting down.
    /// Components that shut down instantly may skip this status and proceed directly to
    /// [`Self::ShutDown`].
    ShuttingDown,
    /// Component is shut down.
    ShutDown,
    /// Component has been abnormally interrupted by a panic.
    Panicked,
}

impl HealthStatus {
    /// A component counts as healthy while it is ready or merely affected.
    pub open spec fn spec_is_healthy(self) -> bool {
        self == HealthStatus::Ready || self == HealthStatus::Affected
    }

    /// The rank of a status when several are combined: the status with the
    /// greatest rank is the worst one and dominates an aggregate.
    pub open spec fn priority(self) -> nat {
        match self {
            HealthStatus::Ready => 0,
            HealthStatus::Affected => 1,
            HealthStatus::ShuttingDown => 2,
            HealthStatus::ShutDown => 3,
            HealthStatus::NotReady => 4,
            HealthStatus::Panicked => 5,
        }
    }

    /// The worse of two statuses, by [`Self::priority`].
    pub open spec fn spec_worse_of(self, other: HealthStatus) -> HealthStatus {
        if self.priority() <= other.priority() {
            other
        } else {
            self
        }
    }

    /// Checks whether a component is healthy according to this status.
    #[verifier::when_used_as_spec(spec_is_healthy)]
    pub fn is_healthy(self) -> (healthy: bool)
        ensures
            healthy == self.spec_is_healthy(),
    {
        matches!(self, Self::Ready | Self::Affected)
    }

    /// The rank of this status for aggregation; see [`Self::priority`].
    pub fn priority_for_aggregation(self) -> (rank: usize)
        ensures
            rank == self.priority(),
            rank <= 5,
    {
        match self {
            Self::Ready => 0,
            Self::Affected => 1,
            Self::ShuttingDown => 2,
            Self::ShutDown => 3,
            Self::NotReady => 4,
            Self::Panicked => 5,
        }
    }

    /// Picks the status that dominates when `self` and `other` are combined.
    #[verifier::when_used_as_spec(spec_worse_of)]
    pub fn worse_of(self, other: HealthStatus) -> (worse: HealthStatus)
        ensures
            worse == self.spec_worse_of(other),
    {
        if self.priority_for_aggregation() <= other.priority_for_aggregation() {
            other
        } else {
            self
        }
    }
}

/// Two statuses of equal rank are the same status, so the worst status of a
/// set of components does not depend on the order in which they are combined.
pub proof fn lemma_priority_is_injective(a: HealthStatus, b: HealthStatus)
    ensures
        a.priority() == b.priority() <==> a == b,
{
}

/// The only healthy statuses are the two of lowest rank: an aggregate is
/// healthy exactly when nothing worse than `Affected` was reported.
pub proof fn lemma_healthy_iff_low_priority(status: HealthStatus)
    ensures
        status.spec_is_healthy() <==> status.priority() <= 1,
{
}

} // verus!
