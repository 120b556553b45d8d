//! Fleet types — the slicer's input snapshot.

use vstd::prelude::*;

use crate::protocol::DronePhase;

verus! {

/// Observed state of a drone as far as planning reads it. Battery, paint,
/// voltage, position and attitude are floating point and stay with the
/// telemetry layer.
#[derive(Debug, Clone, Copy, PartialEq, Eq, Structural)]
pub struct DroneState {
    pub phase: DronePhase,
}

impl Default for DroneState {
    fn default() -> (r: DroneState)
        ensures
            r.phase == DronePhase::Idle,
    {
        DroneState { phase: DronePhase::Idle }
    }
}

/// One drone known to the oracle.
#[derive(Debug)]
pub struct Drone {
    pub id: String,
    pub legion_version: Option<String>,
    pub capabilities: Vec<String>,
    pub state: DroneState,
    pub is_stale: bool,
}

/// A drone is eligible for sortie assignment when it is online and idle.
pub open spec fn is_idle(d: Drone) -> bool {
    !d.is_stale && d.state.phase == DronePhase::Idle
}

/// A point-in-time copy of the fleet fed to the slicer. `captured_at` is
/// the capture time in Unix nanoseconds.
#[derive(Debug)]
pub struct FleetSnapshot {
    pub captured_at: i128,
    pub drones: Vec<Drone>,
}

/// `time::OffsetDateTime::now_utc`, as Unix nanoseconds. Nothing is claimed
/// of the value: it is the clock.
#[verifier::external_body]
pub(crate) fn now_unix_nanos() -> i128 {
    time::OffsetDateTime::now_utc().unix_timestamp_nanos()
}

impl Default for FleetSnapshot {
    /// An empty snapshot captured at the Unix epoch.
    fn default() -> (r: FleetSnapshot)
        ensures
            r.captured_at == 0,
            r.drones@.len() == 0,
    {
        FleetSnapshot { captured_at: 0, drones: Vec::new() }
    }
}

impl FleetSnapshot {
    /// A snapshot of `drones` captured now.
    pub fn now(drones: Vec<Drone>) -> (r: FleetSnapshot)
        ensures
            r.drones == drones,
    {
        FleetSnapshot { captured_at: now_unix_nanos(), drones }
    }

    /// The drones eligible for sortie assignment, in roster order.
    pub fn idle_drones(&self) -> (r: Vec<&Drone>)
        ensures
            r@.map_values(|d: &Drone| *d) == self.drones@.filter(|d: Drone| is_idle(d)),
    {
        let mut r: Vec<&Drone> = Vec::new();
        let n = self.drones.len();
        for i in 0..n
            invariant
                n == self.drones@.len(),
                r@.map_values(|d: &Drone| *d) == self.drones@.take(i as int).filter(
                    |d: Drone| is_idle(d),
                ),
        {
            let d = &self.drones[i];
            let ghost before = r@;
            reveal_with_fuel(Seq::filter, 1);
            assert(self.drones@.take(i + 1).drop_last() =~= self.drones@.take(i as int));
            if !d.is_stale && d.state.phase == DronePhase::Idle {
                r.push(d);
                assert(r@.map_values(|d: &Drone| *d) =~= before.map_values(|d: &Drone| *d).push(*d));
            }
        }
        assert(self.drones@.take(n as int) =~= self.drones@);
        r
    }
}

} // verus!
