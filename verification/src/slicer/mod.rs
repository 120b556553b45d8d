//! The plan engine's discrete stages. The geometric stages (coverage
//! passes, waypoints, transit and pass durations, paint volume) are
//! floating point; the stages here take their results as plain values.
//!
//! - [`preflight`] — the intent checks made before any geometry.
//! - [`sortie_pack`] — distribute passes across drones in contiguous chunks.
//! - [`steps`] — wrap each sortie in its `Takeoff → Transit → SprayPass …` sequence.
//! - [`radio_loss`] — stamp the default radio-loss policy on every step.
//! - [`schedule`] — the wall-clock summary of the sorties.
//! - [`resources`] — battery cycles and flight time.
//! - [`validate`] — the rules behind the plan's warnings.
//! - [`plan_findings`] — the error and warning lists of a sliced plan.

pub mod radio_loss;
pub mod resources;
pub mod schedule;
pub mod sortie_pack;
pub mod steps;
pub mod validate;

use vstd::prelude::*;

use crate::domain::fleet::Drone;
use crate::domain::intent::ScanRef;
use crate::domain::plan::{
    FleetSchedule, PlanError, PlanErrorCode, PlanWarning, PlanWarningCode, PlanWarningSeverity,
};
use crate::slicer::validate::{long_duration_warning, LONG_DURATION_THRESHOLD_S};
use crate::text::owned;

verus! {

/// Errors the slicer hits before it has produced a plan.
#[derive(Debug)]
pub enum SlicerError {
    NoRegions,
    RegionGeometry { region_id: String, reason: String },
    NotGeoreferenced,
}

/// The intent checks made before any geometry: a non-georeferenced intent
/// is refused first, then an intent without regions.
pub fn preflight(scan: &ScanRef, region_count: usize) -> (r: Result<(), SlicerError>)
    ensures
        !scan.georeferenced ==> r matches Err(SlicerError::NotGeoreferenced),
        scan.georeferenced && region_count == 0 ==> r matches Err(SlicerError::NoRegions),
        scan.georeferenced && region_count > 0 ==> r is Ok,
{
    if !scan.georeferenced {
        return Err(SlicerError::NotGeoreferenced);
    }
    if region_count == 0 {
        return Err(SlicerError::NoRegions);
    }
    Ok(())
}

/// The plan error recorded when the fleet snapshot holds no drone: the
/// slicer still produces the plan, which cannot then be approved.
pub fn check_fleet(drones: &[Drone]) -> (r: Option<PlanError>)
    ensures
        drones@.len() == 0 <==> r is Some,
        r matches Some(e) ==> e.code == PlanErrorCode::NoDronesAvailable && e.message@
            == "no drones in the fleet snapshot"@ && e.region_id is None,
{
    if drones.len() == 0 {
        Some(
            PlanError {
                code: PlanErrorCode::NoDronesAvailable,
                message: owned("no drones in the fleet snapshot"),
                region_id: None,
            },
        )
    } else {
        None
    }
}

/// The error and warning lists of a sliced plan. The errors are the
/// coverage errors followed by the fleet's (`check_fleet`); the warnings are
/// the long-duration warning of the schedule, when it is earned, followed by
/// the coverage warnings. `hours` is the plan's duration in hours as shown.
pub fn plan_findings(
    coverage_errors: Vec<PlanError>,
    drones: &[Drone],
    coverage_warnings: Vec<PlanWarning>,
    schedule: &FleetSchedule,
    hours: &str,
) -> (r: (Vec<PlanError>, Vec<PlanWarning>))
    ensures
        drones@.len() > 0 ==> r.0@ == coverage_errors@,
        drones@.len() == 0 ==> {
            &&& r.0@.len() == coverage_errors@.len() + 1
            &&& r.0@.drop_last() == coverage_errors@
            &&& r.0@.last().code == PlanErrorCode::NoDronesAvailable
            &&& r.0@.last().message@ == "no drones in the fleet snapshot"@
            &&& r.0@.last().region_id is None
        },
        schedule.total_duration_s <= LONG_DURATION_THRESHOLD_S ==> r.1@ == coverage_warnings@,
        schedule.total_duration_s > LONG_DURATION_THRESHOLD_S ==> {
            &&& r.1@.len() == coverage_warnings@.len() + 1
            &&& r.1@.drop_first() == coverage_warnings@
            &&& r.1@[0].code == PlanWarningCode::LongDuration
            &&& r.1@[0].severity == PlanWarningSeverity::Warn
            &&& r.1@[0].message@ == "plan duration ("@ + hours@
                + " h) exceeds 4 h threshold; consider splitting"@
        },
{
    let mut errors = coverage_errors;
    match check_fleet(drones) {
        Some(e) => errors.push(e),
        None => {},
    }
    let mut warnings: Vec<PlanWarning> = Vec::new();
    match long_duration_warning(schedule, hours) {
        Some(w) => warnings.push(w),
        None => {},
    }
    let mut rest = coverage_warnings;
    warnings.append(&mut rest);
    (errors, warnings)
}

} // verus!
