//! Admission of a legion on the link: the Hello exchange.

use vstd::prelude::*;

use crate::text::{joined, decimal, decimal_text};

verus! {

/// Settings the listener honours during the Hello exchange.
#[derive(Debug, Clone)]
pub struct ListenerConfig {
    /// Drone IDs that may connect; everyone else is rejected.
    pub allowed_drones: Vec<String>,
    /// Shared bearer token (not yet enforced).
    pub shared_token: String,
    /// Oracle's version, sent in the server-side Hello.
    pub oracle_version: String,
}

/// What becomes of a connection after its first frame.
#[derive(Debug)]
pub enum Admission {
    /// The envelope speaks another protocol version: the drone is told to
    /// return to base with `reason`, then the connection closes.
    VersionMismatch { reason: String },
    /// The first frame was not a Hello: the connection closes.
    NotHello,
    /// The drone is not on the allowlist: the connection closes.
    NotAllowed,
    /// The drone joins: the oracle answers Hello and registers the session.
    Admitted,
}

/// `drone_id` is on the allowlist.
pub open spec fn is_allowed(allowed: Seq<String>, drone_id: Seq<char>) -> bool {
    exists|i: int| 0 <= i < allowed.len() && #[trigger] allowed[i]@ == drone_id
}

/// Decide on a connection from its first frame: the protocol version is
/// checked first, then that the frame is a Hello, then the allowlist.
pub fn decide_admission(
    config: &ListenerConfig,
    drone_id: &String,
    version: u32,
    expected_version: u32,
    is_hello: bool,
) -> (r: Admission)
    ensures
        version != expected_version ==> (r matches Admission::VersionMismatch { reason } && reason@
            == "version mismatch: oracle expects "@ + decimal_text(expected_version as nat)
            + ", got "@ + decimal_text(version as nat)),
        version == expected_version && !is_hello ==> r is NotHello,
        version == expected_version && is_hello && !is_allowed(
            config.allowed_drones@,
            drone_id@,
        ) ==> r is NotAllowed,
        version == expected_version && is_hello && is_allowed(
            config.allowed_drones@,
            drone_id@,
        ) ==> r is Admitted,
{
    if version != expected_version {
        let expected = decimal(expected_version as u64);
        let got = decimal(version as u64);
        let mut reason = joined("version mismatch: oracle expects ", expected.as_str());
        reason.append(", got ");
        reason.append(got.as_str());
        return Admission::VersionMismatch { reason };
    }
    if !is_hello {
        return Admission::NotHello;
    }
    let n = config.allowed_drones.len();
    for i in 0..n
        invariant
            n == config.allowed_drones@.len(),
            version == expected_version,
            is_hello,
            forall|j: int| 0 <= j < i ==> config.allowed_drones@[j]@ != drone_id@,
    {
        if config.allowed_drones[i] == *drone_id {
            return Admission::Admitted;
        }
    }
    Admission::NotAllowed
}

} // verus!
