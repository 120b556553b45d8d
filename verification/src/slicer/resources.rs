//! Resource estimation — battery cycles and total flight time. Paint
//! volume is floating point and is summed by the geometry layer.

use vstd::prelude::*;

use crate::protocol::Sortie;
use crate::slicer::schedule::{count_u32, saturating_count, sum_durations, total_duration};

verus! {

/// Battery and flight-time consumption of a plan.
#[derive(Debug, Clone, Copy, PartialEq, Eq, Structural)]
pub struct ResourceEstimate {
    pub battery_cycles: u32,
    pub total_flight_time_s: u64,
}

/// One battery per sortie, and the sorties' total flight time.
pub fn estimate<W>(sorties: &[Sortie<W>]) -> (r: ResourceEstimate)
    requires
        total_duration(sorties@) <= u64::MAX,
    ensures
        r.battery_cycles == saturating_count(sorties@.len() as int),
        r.total_flight_time_s == total_duration(sorties@),
{
    ResourceEstimate {
        battery_cycles: count_u32(sorties.len()),
        total_flight_time_s: sum_durations(sorties),
    }
}

} // verus!
