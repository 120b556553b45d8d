//! Intent types read by the oracle's logic. Regions and faces carry
//! floating-point geometry and stay with the geometry layer.

use vstd::prelude::*;

verus! {

/// Reference to the scan an intent was authored on.
#[derive(Debug, Clone)]
pub struct ScanRef {
    pub id: String,
    pub source_file: Option<String>,
    pub georeferenced: bool,
}

/// Operator-set constraints carried through to the audit log.
#[derive(Debug, Clone)]
pub struct OperatorConstraints {
    /// Preferred time window in ISO 8601, optional.
    pub time_window: Option<String>,
    /// Maximum drones permitted simultaneously, optional.
    pub max_concurrent_drones: Option<u32>,
    /// Free-form notes carried through to the audit log.
    pub notes: Option<String>,
}

impl Default for OperatorConstraints {
    fn default() -> (r: OperatorConstraints)
        ensures
            r.time_window is None,
            r.max_concurrent_drones is None,
            r.notes is None,
    {
        OperatorConstraints { time_window: None, max_concurrent_drones: None, notes: None }
    }
}

} // verus!
