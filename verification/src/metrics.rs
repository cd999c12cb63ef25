//! The one piece of metric plumbing with logic of its own: exporting the
//! resharding status as an integer gauge value.

use vstd::prelude::*;

verus! {

/// The stages a resharding job passes through.
#[derive(Clone, Copy, Debug, PartialEq, Eq, Structural)]
pub enum ReshardingStatus {
    /// The resharding request was sent to the background actor.
    Scheduled,
    /// The background actor is performing the resharding.
    BuildingState,
    /// The resharding is finished.
    Finished,
}

impl From<ReshardingStatus> for i64 {
    /// Converts a status to the integer exported on the gauge. A cast
    /// would not do: the enum is matched case by case.
    fn from(value: ReshardingStatus) -> (r: i64) {
        match value {
            ReshardingStatus::Scheduled => 0,
            ReshardingStatus::BuildingState => 1,
            ReshardingStatus::Finished => 2,
        }
    }
}

impl vstd::std_specs::convert::FromSpecImpl<ReshardingStatus> for i64 {
    open spec fn obeys_from_spec() -> bool {
        true
    }

    open spec fn from_spec(value: ReshardingStatus) -> i64 {
        match value {
            ReshardingStatus::Scheduled => 0,
            ReshardingStatus::BuildingState => 1,
            ReshardingStatus::Finished => 2,
        }
    }
}

} // verus!
