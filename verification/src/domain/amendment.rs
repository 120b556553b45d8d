//! Plan amendments — modifications to a plan that is already executing.

use vstd::prelude::*;

verus! {

/// A modification to an executing plan. `R` is the region payload of
/// `AddRegion`. `resume_estimate` is Unix nanoseconds.
#[derive(Debug, Clone)]
pub enum PlanAmendment<R> {
    /// Oracle-initiated: a drone went stale; remaining sorties were reassigned.
    DroneDown { drone_id: String, reassigned_to: Vec<String> },
    /// Oracle-initiated: weather forecast tripped a hold on a set of sorties.
    WeatherHold { affected_sorties: Vec<String>, resume_estimate: i128 },
    /// Oracle-initiated: a sortie failed; oracle proposes a retry.
    SortieFailed { sortie_id: String, reason: String },
    /// Operator-initiated: pause the entire plan at the next gate.
    PauseAll,
    /// Operator-initiated: skip a region.
    SkipRegion { region_id: String },
    /// Operator-initiated: hard abort and return to launch.
    AbortAndLand,
    /// Operator-initiated: add a new region (a full replan of remaining work).
    AddRegion { region: R },
}

impl<R> PlanAmendment<R> {
    /// Amendments that change the intent or stop the swarm need operator
    /// approval; the oracle's routine adjustments (drone down, sortie
    /// failed) do not.
    pub fn requires_approval(&self) -> (r: bool)
        ensures
            r == !(self is DroneDown || self is SortieFailed),
    {
        match self {
            PlanAmendment::DroneDown { .. } | PlanAmendment::SortieFailed { .. } => false,
            PlanAmendment::WeatherHold { .. }
            | PlanAmendment::PauseAll
            | PlanAmendment::SkipRegion { .. }
            | PlanAmendment::AbortAndLand
            | PlanAmendment::AddRegion { .. } => true,
        }
    }

    pub open spec fn spec_kind(&self) -> Seq<char> {
        match self {
            PlanAmendment::DroneDown { .. } => "drone_down"@,
            PlanAmendment::WeatherHold { .. } => "weather_hold"@,
            PlanAmendment::SortieFailed { .. } => "sortie_failed"@,
            PlanAmendment::PauseAll => "pause_all"@,
            PlanAmendment::SkipRegion { .. } => "skip_region"@,
            PlanAmendment::AbortAndLand => "abort_and_land"@,
            PlanAmendment::AddRegion { .. } => "add_region"@,
        }
    }

    /// The serialised tag of the amendment.
    pub fn kind_str(&self) -> (r: &'static str)
        ensures
            r@ == self.spec_kind(),
    {
        match self {
            PlanAmendment::DroneDown { .. } => "drone_down",
            PlanAmendment::WeatherHold { .. } => "weather_hold",
            PlanAmendment::SortieFailed { .. } => "sortie_failed",
            PlanAmendment::PauseAll => "pause_all",
            PlanAmendment::SkipRegion { .. } => "skip_region",
            PlanAmendment::AbortAndLand => "abort_and_land",
            PlanAmendment::AddRegion { .. } => "add_region",
        }
    }
}

} // verus!
