//! Drone roster vocabulary: the stored names of flight phases.

use vstd::prelude::*;

use crate::protocol::DronePhase;
use crate::text::str_eq;

verus! {

/// The stored name of each flight phase.
pub open spec fn drone_phase_text(p: DronePhase) -> Seq<char> {
    match p {
        DronePhase::Idle => "Idle"@,
        DronePhase::Armed => "Armed"@,
        DronePhase::InAir => "InAir"@,
        DronePhase::ExecutingStep => "ExecutingStep"@,
        DronePhase::Holding => "Holding"@,
        DronePhase::Landing => "Landing"@,
    }
}

/// The phase a stored name denotes; a missing or unknown name is `Idle`.
pub open spec fn drone_phase_parse(s: Option<Seq<char>>) -> DronePhase {
    match s {
        Some(t) => if t == "Idle"@ {
            DronePhase::Idle
        } else if t == "Armed"@ {
            DronePhase::Armed
        } else if t == "InAir"@ {
            DronePhase::InAir
        } else if t == "ExecutingStep"@ {
            DronePhase::ExecutingStep
        } else if t == "Holding"@ {
            DronePhase::Holding
        } else if t == "Landing"@ {
            DronePhase::Landing
        } else {
            DronePhase::Idle
        },
        None => DronePhase::Idle,
    }
}

/// The stored name of a flight phase.
pub fn drone_phase_str(p: DronePhase) -> (r: &'static str)
    ensures
        r@ == drone_phase_text(p),
{
    match p {
        DronePhase::Idle => "Idle",
        DronePhase::Armed => "Armed",
        DronePhase::InAir => "InAir",
        DronePhase::ExecutingStep => "ExecutingStep",
        DronePhase::Holding => "Holding",
        DronePhase::Landing => "Landing",
    }
}

/// Reads a stored flight phase; a missing or unknown name reads as the
/// default phase, `Idle`.
pub fn parse_drone_phase(s: Option<&str>) -> (r: DronePhase)
    ensures
        r == drone_phase_parse(
            match s {
                Some(t) => Some(t@),
                None => None,
            },
        ),
{
    match s {
        Some(t) => {
            if str_eq(t, "Idle") {
                DronePhase::Idle
            } else if str_eq(t, "Armed") {
                DronePhase::Armed
            } else if str_eq(t, "InAir") {
                DronePhase::InAir
            } else if str_eq(t, "ExecutingStep") {
                DronePhase::ExecutingStep
            } else if str_eq(t, "Holding") {
                DronePhase::Holding
            } else if str_eq(t, "Landing") {
                DronePhase::Landing
            } else {
                DronePhase::default()
            }
        },
        None => DronePhase::default(),
    }
}

/// Reading back a stored phase gives the same phase.
pub proof fn lemma_drone_phase_round_trip(p: DronePhase)
    ensures
        drone_phase_parse(Some(drone_phase_text(p))) == p,
{
    reveal_strlit("Idle");
    reveal_strlit("Armed");
    reveal_strlit("InAir");
    reveal_strlit("ExecutingStep");
    reveal_strlit("Holding");
    reveal_strlit("Landing");
    assert("Idle"@.len() == 4);
    assert("Armed"@.len() == 5 && "Armed"@[0] == 'A');
    assert("InAir"@.len() == 5 && "InAir"@[0] == 'I');
    assert("ExecutingStep"@.len() == 13);
    assert("Holding"@.len() == 7 && "Holding"@[0] == 'H');
    assert("Landing"@.len() == 7 && "Landing"@[0] == 'L');
}

/// Each flight phase is stored under its variant name.
pub proof fn lemma_drone_phase_names()
    ensures
        drone_phase_text(DronePhase::Idle) == "Idle"@,
        drone_phase_text(DronePhase::Armed) == "Armed"@,
        drone_phase_text(DronePhase::InAir) == "InAir"@,
        drone_phase_text(DronePhase::ExecutingStep) == "ExecutingStep"@,
        drone_phase_text(DronePhase::Holding) == "Holding"@,
        drone_phase_text(DronePhase::Landing) == "Landing"@,
{
}

/// Each phase's name reads back as that phase.
pub proof fn lemma_drone_phase_parses_names()
    ensures
        drone_phase_parse(Some("Idle"@)) == DronePhase::Idle,
        drone_phase_parse(Some("Armed"@)) == DronePhase::Armed,
        drone_phase_parse(Some("InAir"@)) == DronePhase::InAir,
        drone_phase_parse(Some("ExecutingStep"@)) == DronePhase::ExecutingStep,
        drone_phase_parse(Some("Holding"@)) == DronePhase::Holding,
        drone_phase_parse(Some("Landing"@)) == DronePhase::Landing,
{
    lemma_drone_phase_round_trip(DronePhase::Idle);
    lemma_drone_phase_round_trip(DronePhase::Armed);
    lemma_drone_phase_round_trip(DronePhase::InAir);
    lemma_drone_phase_round_trip(DronePhase::ExecutingStep);
    lemma_drone_phase_round_trip(DronePhase::Holding);
    lemma_drone_phase_round_trip(DronePhase::Landing);
}

} // verus!
