use oracle::domain::plan::{
    PlanErrorCode, PlanId, PlanStatus, PlanWarningCode, PlanWarningSeverity,
};
use oracle::protocol::{DronePhase, RadioLossBehaviour, StepType};
use oracle::store::drones::{drone_phase_str, parse_drone_phase};
use oracle::store::plans::{sha256_hex, PlanStatusUpdate};
use oracle::store::sorties::{
    behaviour_str, column_u32, parse_behaviour, parse_step_type, step_type_str, SortieStatus,
    SortieStatusUpdate,
};
use oracle::store::steps::{last_completed_from_column, GateDecision, StepProgressState};
use oracle::text::{joined, decimal, owned, str_eq};

const ALL_STATUSES: [PlanStatus; 8] = [
    PlanStatus::Draft,
    PlanStatus::Proposed,
    PlanStatus::Approved,
    PlanStatus::Executing,
    PlanStatus::Paused,
    PlanStatus::Aborted,
    PlanStatus::Complete,
    PlanStatus::Failed,
];

#[test]
fn plan_status_text_round_trips() {
    for s in ALL_STATUSES {
        assert_eq!(PlanStatus::parse(s.as_str()).unwrap(), s);
        assert_eq!(s.as_str().parse::<PlanStatus>().unwrap(), s);
    }
    assert_eq!(PlanStatus::Proposed.as_str(), "Proposed");
    assert_eq!(PlanStatus::parse("proposed").unwrap_err(), "unknown plan status: proposed");
}

#[test]
fn plan_status_update_stamps_the_right_timestamp() {
    assert_eq!(PlanStatus::Approved.update(), PlanStatusUpdate::Approval);
    assert_eq!(PlanStatus::Executing.update(), PlanStatusUpdate::Start);
    assert_eq!(PlanStatus::Complete.update(), PlanStatusUpdate::Completion);
    assert_eq!(PlanStatus::Failed.update(), PlanStatusUpdate::Completion);
    assert_eq!(PlanStatus::Aborted.update(), PlanStatusUpdate::Completion);
    assert_eq!(PlanStatus::Paused.update(), PlanStatusUpdate::StatusOnly);
    assert_eq!(PlanStatus::Proposed.update(), PlanStatusUpdate::StatusOnly);
}

#[test]
fn sortie_status_update_stamps_the_right_timestamp() {
    assert_eq!(SortieStatus::Uploaded.update(), SortieStatusUpdate::Uploaded);
    assert_eq!(SortieStatus::Executing.update(), SortieStatusUpdate::Started);
    assert_eq!(SortieStatus::Complete.update(), SortieStatusUpdate::Ended);
    assert_eq!(SortieStatus::Failed.update(), SortieStatusUpdate::EndedWithReason);
    assert_eq!(SortieStatus::Aborted.update(), SortieStatusUpdate::EndedWithReason);
    assert_eq!(SortieStatus::Pending.update(), SortieStatusUpdate::StatusOnly);
}

#[test]
fn vocabulary_names() {
    assert_eq!(PlanWarningSeverity::Info.as_str(), "info");
    assert_eq!(PlanWarningSeverity::Critical.as_str(), "critical");
    assert_eq!(PlanWarningCode::LongDuration.as_str(), "long_duration");
    assert_eq!(PlanWarningCode::LowPaintMargin.as_str(), "low_paint_margin");
    assert_eq!(PlanWarningCode::RegionSubdivided.as_str(), "region_subdivided");
    assert_eq!(PlanErrorCode::NonPlanarRegion.as_str(), "non_planar_region");
    assert_eq!(PlanErrorCode::NoDronesAvailable.as_str(), "no_drones_available");
    assert_eq!(StepProgressState::Gating.as_str(), "Gating");
    assert_eq!(StepProgressState::Held.as_str(), "Held");
    assert_eq!(GateDecision::AutoProceed.as_str(), "AutoProceed");
    assert_eq!(GateDecision::AbortSortie.as_str(), "AbortSortie");
}

#[test]
fn step_type_codec_round_trips() {
    let all = [
        StepType::Takeoff,
        StepType::Transit,
        StepType::SprayPass,
        StepType::RefillApproach,
        StepType::RefillWait,
        StepType::ReturnToBase,
        StepType::Land,
    ];
    for t in all {
        assert_eq!(parse_step_type(step_type_str(t)).unwrap(), t);
    }
    assert_eq!(step_type_str(StepType::SprayPass), "SprayPass");
    assert_eq!(parse_step_type("Hover").unwrap_err(), "unknown step_type: Hover");
}

#[test]
fn behaviour_codec_round_trips() {
    for b in [
        RadioLossBehaviour::Continue,
        RadioLossBehaviour::HoldThenRtl,
        RadioLossBehaviour::RtlImmediately,
    ] {
        assert_eq!(parse_behaviour(behaviour_str(b)).unwrap(), b);
    }
    assert_eq!(behaviour_str(RadioLossBehaviour::HoldThenRtl), "HoldThenRtl");
    assert_eq!(parse_behaviour("Land").unwrap_err(), "unknown radio_loss_behaviour: Land");
}

#[test]
fn drone_phase_codec_round_trips_and_defaults_to_idle() {
    for p in [
        DronePhase::Idle,
        DronePhase::Armed,
        DronePhase::InAir,
        DronePhase::ExecutingStep,
        DronePhase::Holding,
        DronePhase::Landing,
    ] {
        assert_eq!(parse_drone_phase(Some(drone_phase_str(p))), p);
    }
    assert_eq!(parse_drone_phase(Some("Flying")), DronePhase::Idle);
    assert_eq!(parse_drone_phase(None), DronePhase::Idle);
    assert_eq!(DronePhase::default(), DronePhase::Idle);
}

#[test]
fn integer_columns_read_as_u32() {
    assert_eq!(column_u32(17), 17);
    assert_eq!(column_u32(-1), 0);
    assert_eq!(column_u32(1 << 40), 0);
    assert_eq!(column_u32(u32::MAX as i64), u32::MAX);
    assert_eq!(last_completed_from_column(None), None);
    assert_eq!(last_completed_from_column(Some(4)), Some(4));
    assert_eq!(last_completed_from_column(Some(-3)), Some(0));
}

#[test]
fn sha256_hex_of_known_vectors() {
    assert_eq!(
        sha256_hex(""),
        "e3b0c44298fc1c149afbf4c8996fb92427ae41e4649b934ca495991b7852b855"
    );
    assert_eq!(
        sha256_hex("abc"),
        "ba7816bf8f01cfea414140de5dae2223b00361a396177a9cb410ff61f20015ad"
    );
    assert_eq!(sha256_hex("plan body").len(), 64);
}

#[test]
fn plan_id_text_round_trips() {
    let id = PlanId(0xa1a2a3a4_b1b2_c1c2_d1d2_d3d4d5d6d7d8);
    assert_eq!(id.to_string(), "a1a2a3a4-b1b2-c1c2-d1d2-d3d4d5d6d7d8");
    assert_eq!(PlanId::parse("a1a2a3a4-b1b2-c1c2-d1d2-d3d4d5d6d7d8").unwrap(), id);
    assert_eq!(PlanId::parse("A1A2A3A4B1B2C1C2D1D2D3D4D5D6D7D8").unwrap(), id);
    assert_eq!(PlanId::parse("{a1a2a3a4-b1b2-c1c2-d1d2-d3d4d5d6d7d8}").unwrap(), id);
    assert_eq!(PlanId::parse("urn:uuid:a1a2a3a4-b1b2-c1c2-d1d2-d3d4d5d6d7d8").unwrap(), id);
    assert!(PlanId::parse("not-a-uuid").is_err());
    assert!(PlanId::parse("").is_err());
    assert_eq!(PlanId(0).to_string(), "00000000-0000-0000-0000-000000000000");
    let fresh = PlanId::new();
    assert_eq!(PlanId::parse(&fresh.to_string()).unwrap(), fresh);
    assert_eq!("a1a2a3a4-b1b2-c1c2-d1d2-d3d4d5d6d7d8".parse::<PlanId>().unwrap(), id);
}

#[test]
fn fresh_plan_ids_sort_by_creation() {
    let a = PlanId::new();
    let b = PlanId::new();
    assert!(a.0 < b.0);
    assert_eq!((a.0 >> 76) & 0xf, 7);
    assert_eq!((a.0 >> 62) & 0x3, 2);
    assert_eq!(a.to_string().chars().nth(14), Some('7'));
}

#[test]
fn text_helpers() {
    assert_eq!(decimal(0), "0");
    assert_eq!(decimal(7), "7");
    assert_eq!(decimal(1234567890), "1234567890");
    assert_eq!(decimal(u64::MAX), u64::MAX.to_string());
    assert!(str_eq("abc", "abc"));
    assert!(!str_eq("abc", "abd"));
    assert_eq!(owned("x"), "x");
    assert_eq!(joined("ab", "cd"), "abcd");
}
