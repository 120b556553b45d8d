use oracle::domain::fleet::{Drone, DroneState, FleetSnapshot};
use oracle::domain::intent::ScanRef;
use oracle::domain::plan::{
    is_approvable, FleetSchedule, PlanError, PlanErrorCode, PlanId, PlanWarning, PlanWarningCode,
    PlanWarningSeverity,
};
use oracle::slicer::validate::{
    exceeds_long_duration, long_duration_warning, subdivision_warning, LONG_DURATION_THRESHOLD_S,
};
use oracle::protocol::{
    DronePhase, RadioLossBehaviour, RadioLossPolicy, Sortie, SortieStep, StepSpeed, StepType,
};
use oracle::slicer::radio_loss::{assign_defaults, default_for};
use oracle::slicer::resources::estimate;
use oracle::slicer::schedule::{build, count_u32, sum_durations};
use oracle::slicer::sortie_pack::{pack, RawSortie};
use oracle::slicer::steps::{assemble, PassLeg, SortieFrame};
use oracle::slicer::{check_fleet, plan_findings, preflight, SlicerError};

#[test]
fn _silence_unused_plan_error_code_import() {
    let _ = PlanErrorCode::NonPlanarRegion;
}

fn drone(id: &str) -> Drone {
    Drone {
        id: id.to_string(),
        legion_version: None,
        capabilities: vec![],
        state: DroneState { phase: DronePhase::Idle },
        is_stale: false,
    }
}

fn step(index: u32, step_type: StepType, duration: u32) -> SortieStep<()> {
    SortieStep {
        index,
        step_type,
        waypoint: (),
        path: None,
        speed: StepSpeed::Ferry,
        spray: false,
        radio_loss: RadioLossPolicy {
            behaviour: RadioLossBehaviour::Continue,
            silent_timeout_s: 30,
            hold_then_rtl_after_s: None,
        },
        expected_duration_s: duration,
    }
}

fn sortie(id: &str, duration: u32) -> Sortie<()> {
    Sortie {
        sortie_id: id.to_string(),
        plan_id: "p".to_string(),
        drone_id: "drone-01".to_string(),
        steps: vec![step(0, StepType::Takeoff, 10), step(1, StepType::Land, 5)],
        expected_duration_s: duration,
    }
}

fn east_wall_scan() -> ScanRef {
    ScanRef { id: "test-east-wall".to_string(), source_file: None, georeferenced: true }
}

#[test]
fn preflight_refuses_an_intent_without_regions() {
    let err = preflight(&east_wall_scan(), 0).unwrap_err();
    assert!(matches!(err, SlicerError::NoRegions));
    assert!(preflight(&east_wall_scan(), 1).is_ok());
}

#[test]
fn preflight_refuses_a_non_georeferenced_intent() {
    let mut scan = east_wall_scan();
    scan.georeferenced = false;
    let err = preflight(&scan, 1).unwrap_err();
    assert!(matches!(err, SlicerError::NotGeoreferenced));
    assert!(matches!(preflight(&scan, 0), Err(SlicerError::NotGeoreferenced)));
}

#[test]
fn check_fleet_reports_an_empty_fleet() {
    let e = check_fleet(&[]).expect("no drones should produce a non-approvable plan");
    assert_eq!(e.code, PlanErrorCode::NoDronesAvailable);
    assert_eq!(e.message, "no drones in the fleet snapshot");
    assert!(e.region_id.is_none());
    assert!(check_fleet(&[drone("drone-01")]).is_none());
}

#[test]
fn pack_splits_passes_into_contiguous_chunks() {
    let drones = vec![drone("a"), drone("b"), drone("c")];
    let passes: Vec<u32> = (0..7).collect();
    let plan_id = PlanId(42);
    let r = pack(plan_id, &drones, passes);
    assert_eq!(r.len(), 3);
    assert_eq!(r[0].passes, vec![0, 1, 2]);
    assert_eq!(r[1].passes, vec![3, 4]);
    assert_eq!(r[2].passes, vec![5, 6]);
    for (i, s) in r.iter().enumerate() {
        assert_eq!(s.sortie_index as usize, i);
        assert_eq!(s.drone_id, drones[i].id);
        assert_eq!(s.plan_id, plan_id);
        assert!(s.sortie_id.starts_with("sortie-"));
        assert_eq!(s.sortie_id.len(), "sortie-".len() + 36);
    }
    assert_ne!(r[0].sortie_id, r[1].sortie_id);
}

#[test]
fn pack_gives_no_sortie_to_drones_beyond_the_passes() {
    let drones = vec![drone("a"), drone("b"), drone("c")];
    let r = pack(PlanId(1), &drones, vec!['x', 'y']);
    assert_eq!(r.len(), 2);
    assert_eq!(r[0].passes, vec!['x']);
    assert_eq!(r[1].passes, vec!['y']);
    assert_eq!(r[1].drone_id, "b");
}

#[test]
fn pack_of_nothing_is_empty() {
    let drones = vec![drone("a")];
    assert!(pack::<u8>(PlanId(1), &drones, vec![]).is_empty());
    assert!(pack(PlanId(1), &[], vec![1u8, 2]).is_empty());
}

#[test]
fn assemble_lays_out_takeoff_transit_spray_return_land() {
    let raw = RawSortie {
        sortie_id: "sortie-x".to_string(),
        plan_id: PlanId(0xa1a2a3a4_b1b2_c1c2_d1d2_d3d4d5d6d7d8),
        drone_id: "drone-01".to_string(),
        sortie_index: 0,
        passes: vec![
            PassLeg { approach: 10u8, exit: 11u8, transit_duration_s: 4, pass_duration_s: 6 },
            PassLeg { approach: 20u8, exit: 21u8, transit_duration_s: 3, pass_duration_s: 7 },
        ],
    };
    let frame = SortieFrame {
        origin: 0u8,
        takeoff: 1u8,
        takeoff_duration_s: 5,
        return_duration_s: 8,
        land_duration_s: 2,
    };
    let s = assemble(raw, &frame);
    assert_eq!(s.sortie_id, "sortie-x");
    assert_eq!(s.drone_id, "drone-01");
    assert_eq!(s.plan_id, "a1a2a3a4-b1b2-c1c2-d1d2-d3d4d5d6d7d8");
    let types: Vec<StepType> = s.steps.iter().map(|st| st.step_type).collect();
    assert_eq!(
        types,
        vec![
            StepType::Takeoff,
            StepType::Transit,
            StepType::SprayPass,
            StepType::Transit,
            StepType::SprayPass,
            StepType::ReturnToBase,
            StepType::Land,
        ]
    );
    for (i, st) in s.steps.iter().enumerate() {
        assert_eq!(st.index as usize, i);
        assert_eq!(st.spray, st.step_type == StepType::SprayPass);
    }
    assert_eq!(s.steps[0].waypoint, 1);
    assert_eq!(s.steps[2].path, Some(vec![10, 11]));
    assert_eq!(s.steps[4].speed, StepSpeed::Spray);
    assert_eq!(s.steps[5].waypoint, 1);
    assert_eq!(s.steps[6].waypoint, 0);
    assert_eq!(s.expected_duration_s, 5 + 4 + 6 + 3 + 7 + 8 + 2);
}

#[test]
fn radio_loss_defaults_by_step_type() {
    let t = default_for(StepType::Takeoff);
    assert_eq!(t.behaviour, RadioLossBehaviour::HoldThenRtl);
    assert_eq!(t.silent_timeout_s, 5);
    assert_eq!(t.hold_then_rtl_after_s, Some(10));
    let s = default_for(StepType::SprayPass);
    assert_eq!(s.behaviour, RadioLossBehaviour::Continue);
    assert_eq!(s.silent_timeout_s, 60);
    assert_eq!(default_for(StepType::RefillApproach).hold_then_rtl_after_s, Some(30));
    assert_eq!(default_for(StepType::RefillWait).silent_timeout_s, 60);
    let l = default_for(StepType::Land);
    assert_eq!(l.behaviour, RadioLossBehaviour::Continue);
    assert_eq!(l.silent_timeout_s, 30);
    assert_eq!(l.hold_then_rtl_after_s, None);
}

#[test]
fn assign_defaults_stamps_every_step() {
    let s = assign_defaults(sortie("s1", 15));
    assert_eq!(s.steps.len(), 2);
    assert_eq!(s.steps[0].radio_loss, default_for(StepType::Takeoff));
    assert_eq!(s.steps[1].radio_loss, default_for(StepType::Land));
    assert_eq!(s.steps[0].expected_duration_s, 10);
    assert_eq!(s.sortie_id, "s1");
}

#[test]
fn schedule_and_resources_sum_the_sorties() {
    let sorties = vec![sortie("a", 100), sortie("b", 250)];
    assert_eq!(sum_durations(&sorties), 350);
    let sched = build(&sorties);
    assert_eq!(sched.total_sorties, 2);
    assert_eq!(sched.total_duration_s, 350);
    assert_eq!(sched.peak_concurrent_drones, 1);
    assert_eq!(sched.refill_cycles, 0);
    let est = estimate(&sorties);
    assert_eq!(est.battery_cycles, 2);
    assert_eq!(est.total_flight_time_s, 350);
    let empty: Vec<Sortie<()>> = vec![];
    assert_eq!(build(&empty).peak_concurrent_drones, 0);
    assert_eq!(count_u32(usize::MAX), if usize::BITS > 32 { u32::MAX } else { usize::MAX as u32 });
}

#[test]
fn idle_drones_skips_stale_and_busy_drones() {
    let mut busy = drone("busy");
    busy.state.phase = DronePhase::InAir;
    let mut stale = drone("stale");
    stale.is_stale = true;
    let snap = FleetSnapshot { captured_at: 0, drones: vec![drone("a"), busy, stale, drone("b")] };
    let ids: Vec<&str> = snap.idle_drones().iter().map(|d| d.id.as_str()).collect();
    assert_eq!(ids, vec!["a", "b"]);
    let d = FleetSnapshot::default();
    assert_eq!(d.captured_at, 0);
    assert!(d.drones.is_empty());
    let now = FleetSnapshot::now(vec![drone("z")]);
    assert!(now.captured_at > 0);
    assert_eq!(now.drones.len(), 1);
}

#[test]
fn plans_over_four_hours_earn_a_warning() {
    let at = |s: u64| FleetSchedule {
        total_sorties: 1,
        total_duration_s: s,
        peak_concurrent_drones: 1,
        refill_cycles: 0,
    };
    assert_eq!(LONG_DURATION_THRESHOLD_S, 4 * 60 * 60);
    assert!(!exceeds_long_duration(&at(14_400)));
    assert!(exceeds_long_duration(&at(14_401)));
    assert!(!exceeds_long_duration(&at(0)));
}

#[test]
fn assembled_steps_carry_their_type_policy() {
    let raw = RawSortie {
        sortie_id: "sortie-east-wall".to_string(),
        plan_id: PlanId(1),
        drone_id: "drone-01".to_string(),
        sortie_index: 0,
        passes: vec![
            PassLeg { approach: 1u8, exit: 2u8, transit_duration_s: 4, pass_duration_s: 9 },
            PassLeg { approach: 3u8, exit: 4u8, transit_duration_s: 1, pass_duration_s: 9 },
        ],
    };
    let frame = SortieFrame {
        origin: 0u8,
        takeoff: 0u8,
        takeoff_duration_s: 2,
        return_duration_s: 5,
        land_duration_s: 2,
    };
    let sortie = assign_defaults(assemble(raw, &frame));
    for step in &sortie.steps {
        let policy = &step.radio_loss;
        match step.step_type {
            StepType::Takeoff => {
                assert!(matches!(policy.behaviour, RadioLossBehaviour::HoldThenRtl));
                assert!(policy.hold_then_rtl_after_s.is_some());
            }
            StepType::Transit | StepType::SprayPass | StepType::ReturnToBase | StepType::Land => {
                assert!(matches!(policy.behaviour, RadioLossBehaviour::Continue));
            }
            _ => {}
        }
    }
}

#[test]
fn non_planar_region_is_reported_as_subdivided() {
    let w = subdivision_warning("three_walls", 3).expect("three sub-regions earn a warning");
    assert_eq!(w.code, PlanWarningCode::RegionSubdivided);
    assert_eq!(w.severity, PlanWarningSeverity::Info);
    assert!(w.message.contains("3 planar sub-regions"), "got: {}", w.message);
    assert_eq!(w.message, "region three_walls is not planar; split into 3 planar sub-regions");
    assert!(subdivision_warning("east_wall", 2).is_some());
}

#[test]
fn one_sub_region_earns_no_warning() {
    assert!(subdivision_warning("east_wall", 1).is_none());
    assert!(subdivision_warning("east_wall", 0).is_none());
}

#[test]
fn plans_with_errors_are_not_approvable() {
    assert!(is_approvable(&[]));
    let e = PlanError {
        code: PlanErrorCode::NoDronesAvailable,
        message: "no drones in the fleet snapshot".to_string(),
        region_id: None,
    };
    assert!(!is_approvable(&[e]));
}

#[test]
fn pack_gives_every_sortie_its_own_id() {
    let drones: Vec<Drone> = (0..8).map(|i| drone(&format!("d{i}"))).collect();
    let r = pack(PlanId(9), &drones, (0..20).collect::<Vec<u32>>());
    for i in 0..r.len() {
        for j in (i + 1)..r.len() {
            assert_ne!(r[i].sortie_id, r[j].sortie_id);
        }
    }
}

#[test]
fn long_plans_get_a_warning_with_their_hours() {
    let at = |s: u64| FleetSchedule {
        total_sorties: 1,
        total_duration_s: s,
        peak_concurrent_drones: 1,
        refill_cycles: 0,
    };
    assert!(long_duration_warning(&at(14_400), "4.0").is_none());
    let w = long_duration_warning(&at(18_000), "5.0").expect("five hours earn a warning");
    assert_eq!(w.severity, PlanWarningSeverity::Warn);
    assert_eq!(w.code, PlanWarningCode::LongDuration);
    assert_eq!(w.message, "plan duration (5.0 h) exceeds 4 h threshold; consider splitting");
}

#[test]
fn pack_ids_are_increasing_version_7_uuids() {
    let drones: Vec<Drone> = (0..5).map(|i| drone(&format!("d{i}"))).collect();
    let r = pack(PlanId(3), &drones, (0..5).collect::<Vec<u32>>());
    let values: Vec<u128> =
        r.iter().map(|s| PlanId::parse(&s.sortie_id["sortie-".len()..]).unwrap().0).collect();
    for w in values.windows(2) {
        assert!(w[0] < w[1]);
    }
    for v in &values {
        assert_eq!((v >> 76) & 0xf, 7);
    }
}

#[test]
fn plan_findings_append_the_fleet_error_and_lead_with_the_duration_warning() {
    let coverage_error = PlanError {
        code: PlanErrorCode::NonPlanarRegion,
        message: "bad face".to_string(),
        region_id: Some("r1".to_string()),
    };
    let coverage_warning = PlanWarning {
        severity: PlanWarningSeverity::Info,
        code: PlanWarningCode::RegionSubdivided,
        message: "split".to_string(),
    };
    let long = FleetSchedule {
        total_sorties: 1,
        total_duration_s: LONG_DURATION_THRESHOLD_S + 1,
        peak_concurrent_drones: 1,
        refill_cycles: 0,
    };
    let (errors, warnings) =
        plan_findings(vec![coverage_error.clone()], &[], vec![coverage_warning.clone()], &long, "4.0");
    assert_eq!(errors.len(), 2);
    assert_eq!(errors[0].message, "bad face");
    assert_eq!(errors[1].code, PlanErrorCode::NoDronesAvailable);
    assert_eq!(errors[1].message, "no drones in the fleet snapshot");
    assert_eq!(warnings.len(), 2);
    assert_eq!(warnings[0].code, PlanWarningCode::LongDuration);
    assert_eq!(warnings[0].message, "plan duration (4.0 h) exceeds 4 h threshold; consider splitting");
    assert_eq!(warnings[1].code, PlanWarningCode::RegionSubdivided);

    let short = FleetSchedule { total_duration_s: LONG_DURATION_THRESHOLD_S, ..long };
    let (errors, warnings) =
        plan_findings(vec![coverage_error], &[drone("d1")], vec![coverage_warning], &short, "4.0");
    assert_eq!(errors.len(), 1);
    assert_eq!(errors[0].code, PlanErrorCode::NonPlanarRegion);
    assert_eq!(warnings.len(), 1);
    assert_eq!(warnings[0].message, "split");
}
