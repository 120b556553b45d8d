//! Plan validation rules that produce non-fatal warnings.

use vstd::prelude::*;

use crate::domain::plan::{FleetSchedule, PlanWarning, PlanWarningCode, PlanWarningSeverity};
use crate::text::{decimal, decimal_text, joined};

verus! {

/// Plans longer than this many seconds (four hours) get a warning.
pub const LONG_DURATION_THRESHOLD_S: u64 = 14400;

/// Whether the schedule runs past the long-duration threshold, which
/// earns the plan a `LongDuration` warning suggesting a split.
pub fn exceeds_long_duration(schedule: &FleetSchedule) -> (r: bool)
    ensures
        r == (schedule.total_duration_s > LONG_DURATION_THRESHOLD_S),
{
    schedule.total_duration_s > LONG_DURATION_THRESHOLD_S
}

/// The warning of a schedule past the long-duration threshold, given the
/// plan's duration in hours as the text to show (`hours`, one decimal):
/// none within the threshold, otherwise a `LongDuration` warning that
/// suggests splitting the plan.
pub fn long_duration_warning(schedule: &FleetSchedule, hours: &str) -> (r: Option<PlanWarning>)
    ensures
        schedule.total_duration_s > LONG_DURATION_THRESHOLD_S <==> r is Some,
        r matches Some(w) ==> {
            &&& w.severity == PlanWarningSeverity::Warn
            &&& w.code == PlanWarningCode::LongDuration
            &&& w.message@ == "plan duration ("@ + hours@
                + " h) exceeds 4 h threshold; consider splitting"@
        },
{
    if !exceeds_long_duration(schedule) {
        return None;
    }
    let mut message = joined("plan duration (", hours);
    message.append(" h) exceeds 4 h threshold; consider splitting");
    Some(PlanWarning { severity: PlanWarningSeverity::Warn, code: PlanWarningCode::LongDuration, message })
}

/// The warning for a region whose faces had to be split into
/// `sub_regions` planar sub-regions: none when the region is planar (one
/// sub-region, or none), otherwise one informational `RegionSubdivided`
/// warning naming the region and the number of sub-regions.
pub fn subdivision_warning(region_id: &str, sub_regions: usize) -> (r: Option<PlanWarning>)
    ensures
        sub_regions >= 2 <==> r is Some,
        r matches Some(w) ==> {
            &&& w.severity == PlanWarningSeverity::Info
            &&& w.code == PlanWarningCode::RegionSubdivided
            &&& w.message@ == "region "@ + region_id@ + " is not planar; split into "@
                + decimal_text(sub_regions as nat) + " planar sub-regions"@
        },
{
    if sub_regions < 2 {
        return None;
    }
    let mut message = joined("region ", region_id);
    message.append(" is not planar; split into ");
    let count = decimal(sub_regions as u64);
    message.append(count.as_str());
    message.append(" planar sub-regions");
    Some(
        PlanWarning {
            severity: PlanWarningSeverity::Info,
            code: PlanWarningCode::RegionSubdivided,
            message,
        },
    )
}

} // verus!
