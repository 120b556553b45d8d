use oracle::apply::gate::{AutoProceedEvaluator, Gate};
use oracle::apply::handshake::{
    wait_sortie_complete, wait_sortie_received, wait_step_complete, Handshake, HandshakeAction,
    HandshakeError, HandshakeEvent, HandshakePhase,
};
use oracle::apply::supervisor::{
    ApplyError, OperatorAction, OperatorEvent, Supervisor, SupervisorAction, SupervisorEvent,
};
use oracle::domain::plan::{PlanId, PlanStatus};
use oracle::legion_link::authority::{CommandAuthority, HoldReason};
use oracle::legion_link::server::{decide_admission, Admission, ListenerConfig};
use oracle::legion_link::LinkError;
use oracle::protocol::{
    LegionReply, RadioLossBehaviour, RadioLossPolicy, Sortie, SortieStep, StepSpeed, StepType,
};
use oracle::store::sorties::SortieStatus;
use oracle::store::steps::GateDecision;

fn step(index: u32, step_type: StepType) -> SortieStep<()> {
    SortieStep {
        index,
        step_type,
        waypoint: (),
        path: None,
        speed: StepSpeed::Ferry,
        spray: false,
        radio_loss: RadioLossPolicy {
            behaviour: RadioLossBehaviour::Continue,
            silent_timeout_s: 30,
            hold_then_rtl_after_s: None,
        },
        expected_duration_s: 10,
    }
}

fn fixture_sortie() -> Sortie<()> {
    Sortie {
        sortie_id: "sortie-1".to_string(),
        plan_id: "plan-1".to_string(),
        drone_id: "drone-01".to_string(),
        steps: vec![
            step(0, StepType::Takeoff),
            step(1, StepType::Transit),
            step(2, StepType::SprayPass),
            step(3, StepType::ReturnToBase),
            step(4, StepType::Land),
        ],
        expected_duration_s: 50,
    }
}

fn advance(h: Handshake, e: HandshakeEvent) -> (Handshake, HandshakeAction) {
    h.next(e)
}

/// Drive the handshake up to the first gate evaluation.
fn to_first_gate(h: Handshake) -> Handshake {
    let (h, a) = advance(h, HandshakeEvent::Start);
    assert!(matches!(a, HandshakeAction::AuditDispatchStart));
    let (h, a) = advance(h, HandshakeEvent::Done);
    assert!(matches!(a, HandshakeAction::UploadSortie));
    let (h, a) = advance(h, HandshakeEvent::Done);
    assert!(matches!(
        a,
        HandshakeAction::SetSortieStatus { status: SortieStatus::Uploaded, reason: None }
    ));
    let (h, a) = advance(h, HandshakeEvent::Done);
    assert!(matches!(a, HandshakeAction::AwaitSortieReceived));
    let (h, a) = advance(
        h,
        HandshakeEvent::Legion(LegionReply::SortieReceived { sortie_id: "other".to_string() }),
    );
    assert!(matches!(a, HandshakeAction::AwaitSortieReceived));
    let (h, a) = advance(
        h,
        HandshakeEvent::Legion(LegionReply::SortieReceived { sortie_id: "sortie-1".to_string() }),
    );
    assert!(matches!(
        a,
        HandshakeAction::SetSortieStatus { status: SortieStatus::Executing, reason: None }
    ));
    let (h, a) = advance(h, HandshakeEvent::Done);
    assert!(matches!(a, HandshakeAction::EvaluateGate { pos: 0 }));
    h
}

#[test]
fn cooperative_legion_gets_one_proceed_per_step() {
    let sortie = fixture_sortie();
    let mut h = to_first_gate(Handshake::for_sortie(&sortie));
    let mut proceeds = Vec::new();
    for pos in 0..sortie.steps.len() {
        let idx = sortie.steps[pos].index;
        let g = AutoProceedEvaluator.evaluate();
        let (h1, a) = advance(h, HandshakeEvent::GateDecided(g));
        assert!(matches!(
            a,
            HandshakeAction::RecordStepGated { decision: GateDecision::AutoProceed, reason: None, .. }
        ));
        let (h2, a) = advance(h1, HandshakeEvent::Done);
        match a {
            HandshakeAction::SendProceed { step_index } => proceeds.push(step_index),
            other => panic!("expected SendProceed, got {:?}", other),
        }
        let (h3, a) = advance(h2, HandshakeEvent::Done);
        assert!(matches!(a, HandshakeAction::RecordStepRunning { step_index } if step_index == idx));
        let (h4, a) = advance(h3, HandshakeEvent::Done);
        assert!(matches!(a, HandshakeAction::AwaitStepComplete { step_index } if step_index == idx));
        let (h5, a) = advance(h4, HandshakeEvent::Legion(LegionReply::Other));
        assert!(matches!(a, HandshakeAction::AwaitStepComplete { .. }));
        let (h6, a) = advance(
            h5,
            HandshakeEvent::Legion(LegionReply::StepComplete {
                sortie_id: "sortie-1".to_string(),
                step_index: idx,
            }),
        );
        assert!(matches!(a, HandshakeAction::RecordStepComplete { step_index } if step_index == idx));
        let (h7, a) = advance(h6, HandshakeEvent::Done);
        if pos + 1 < sortie.steps.len() {
            assert!(matches!(a, HandshakeAction::EvaluateGate { pos: p } if p == pos + 1));
        } else {
            assert!(matches!(a, HandshakeAction::AwaitSortieComplete));
        }
        h = h7;
    }
    assert_eq!(proceeds, vec![0, 1, 2, 3, 4]);
    let (h, a) = advance(
        h,
        HandshakeEvent::Legion(LegionReply::SortieComplete { sortie_id: "sortie-1".to_string() }),
    );
    assert!(matches!(
        a,
        HandshakeAction::SetSortieStatus { status: SortieStatus::Complete, reason: None }
    ));
    let (h, a) = advance(h, HandshakeEvent::Done);
    assert!(matches!(a, HandshakeAction::AuditSortieComplete));
    let (h, a) = advance(h, HandshakeEvent::Done);
    assert!(matches!(a, HandshakeAction::Finish(Ok(()))));
    assert!(matches!(h.phase, HandshakePhase::Finished { ok: true }));
    let (_, a) = advance(h, HandshakeEvent::Done);
    assert!(matches!(a, HandshakeAction::Noop));
}

#[test]
fn empty_sortie_goes_straight_to_completion_wait() {
    let mut s = fixture_sortie();
    s.steps.clear();
    let h = Handshake::for_sortie(&s);
    let (h, _) = advance(h, HandshakeEvent::Start);
    let (h, _) = advance(h, HandshakeEvent::Done);
    let (h, _) = advance(h, HandshakeEvent::Done);
    let (h, _) = advance(h, HandshakeEvent::Done);
    let (h, _) = advance(
        h,
        HandshakeEvent::Legion(LegionReply::SortieReceived { sortie_id: "sortie-1".to_string() }),
    );
    let (_, a) = advance(h, HandshakeEvent::Done);
    assert!(matches!(a, HandshakeAction::AwaitSortieComplete));
}

#[test]
fn upload_failure_ends_the_handshake() {
    let h = Handshake::for_sortie(&fixture_sortie());
    let (h, _) = advance(h, HandshakeEvent::Start);
    let (h, _) = advance(h, HandshakeEvent::Done);
    let (h, a) = advance(h, HandshakeEvent::LinkFailed(LinkError::Closed));
    assert!(matches!(a, HandshakeAction::Finish(Err(HandshakeError::Link(LinkError::Closed)))));
    assert!(matches!(h.phase, HandshakePhase::Finished { ok: false }));
}

#[test]
fn legion_error_frame_rejects_the_upload() {
    let h = Handshake::for_sortie(&fixture_sortie());
    let (h, _) = advance(h, HandshakeEvent::Start);
    let (h, _) = advance(h, HandshakeEvent::Done);
    let (h, _) = advance(h, HandshakeEvent::Done);
    let (h, _) = advance(h, HandshakeEvent::Done);
    let (_, a) = advance(
        h,
        HandshakeEvent::Legion(LegionReply::Error {
            code: "bad_sortie".to_string(),
            message: "no steps".to_string(),
        }),
    );
    match a {
        HandshakeAction::Finish(Err(HandshakeError::SortieRejected { reason })) => {
            assert_eq!(reason, "bad_sortie: no steps")
        }
        other => panic!("unexpected {:?}", other),
    }
}

#[test]
fn ack_timeout_names_the_wait() {
    let h = Handshake::for_sortie(&fixture_sortie());
    let (h, _) = advance(h, HandshakeEvent::Start);
    let (h, _) = advance(h, HandshakeEvent::Done);
    let (h, _) = advance(h, HandshakeEvent::Done);
    let (h, _) = advance(h, HandshakeEvent::Done);
    let (_, a) = advance(h, HandshakeEvent::TimedOut);
    assert!(matches!(
        a,
        HandshakeAction::Finish(Err(HandshakeError::Timeout { what: "sortie_received" }))
    ));
}

#[test]
fn operator_gate_waits_for_the_matching_signal() {
    let h = to_first_gate(Handshake::for_sortie(&fixture_sortie()));
    let (h, a) = advance(
        h,
        HandshakeEvent::GateDecided(Gate::OperatorRequired { reason: "check paint".to_string() }),
    );
    match &a {
        HandshakeAction::RecordStepGated { step_index, decision, reason } => {
            assert_eq!(*step_index, 0);
            assert_eq!(*decision, GateDecision::OperatorRequired);
            assert_eq!(reason.as_deref(), Some("check paint"));
        }
        other => panic!("unexpected {:?}", other),
    }
    let (h, a) = advance(h, HandshakeEvent::Done);
    assert!(matches!(a, HandshakeAction::SendHold { ref reason } if reason == "check paint"));
    let (h, a) = advance(h, HandshakeEvent::Done);
    assert!(matches!(a, HandshakeAction::AwaitOperatorDecision { step_index: 0 }));
    let (h, a) = advance(
        h,
        HandshakeEvent::Operator { sortie_id: "sortie-1".to_string(), step_index: 3 },
    );
    assert!(matches!(a, HandshakeAction::AwaitOperatorDecision { step_index: 0 }));
    let (_, a) = advance(
        h,
        HandshakeEvent::Operator { sortie_id: "sortie-1".to_string(), step_index: 0 },
    );
    assert!(matches!(a, HandshakeAction::SendProceed { step_index: 0 }));
}

#[test]
fn operator_gate_without_channel_aborts() {
    let h = to_first_gate(Handshake::for_sortie(&fixture_sortie()));
    let (h, _) = advance(
        h,
        HandshakeEvent::GateDecided(Gate::OperatorRequired { reason: "r".to_string() }),
    );
    let (h, _) = advance(h, HandshakeEvent::Done);
    let (h, _) = advance(h, HandshakeEvent::Done);
    let (_, a) = advance(h, HandshakeEvent::NoOperatorChannel);
    match a {
        HandshakeAction::Finish(Err(HandshakeError::OperatorAborted { reason })) => {
            assert_eq!(reason, "operator gate hit but no operator channel attached")
        }
        other => panic!("unexpected {:?}", other),
    }
}

#[test]
fn fleet_conflict_holds_then_aborts() {
    let h = to_first_gate(Handshake::for_sortie(&fixture_sortie()));
    let (h, _) = advance(h, HandshakeEvent::GateDecided(Gate::FleetConflict { with: "drone-02".to_string() }));
    let (h, a) = advance(h, HandshakeEvent::Done);
    assert!(matches!(a, HandshakeAction::SendHold { ref reason } if reason == "fleet_conflict:drone-02"));
    let (_, a) = advance(h, HandshakeEvent::Done);
    match a {
        HandshakeAction::Finish(Err(HandshakeError::OperatorAborted { reason })) => {
            assert_eq!(reason, "fleet conflict with drone-02 (v1 has no resolver)")
        }
        other => panic!("unexpected {:?}", other),
    }
}

#[test]
fn abort_gate_marks_the_sortie_aborted() {
    let h = to_first_gate(Handshake::for_sortie(&fixture_sortie()));
    let (h, _) = advance(h, HandshakeEvent::GateDecided(Gate::AbortSortie { reason: "wind".to_string() }));
    let (h, a) = advance(h, HandshakeEvent::Done);
    assert!(matches!(a, HandshakeAction::SendAbort { ref reason } if reason == "wind"));
    let (h, a) = advance(h, HandshakeEvent::Done);
    match &a {
        HandshakeAction::SetSortieStatus { status, reason } => {
            assert_eq!(*status, SortieStatus::Aborted);
            assert_eq!(reason.as_deref(), Some("wind"));
        }
        other => panic!("unexpected {:?}", other),
    }
    let (_, a) = advance(h, HandshakeEvent::Done);
    assert!(matches!(a, HandshakeAction::Finish(Err(HandshakeError::OperatorAborted { ref reason })) if reason == "wind"));
}

#[test]
fn db_failure_while_recording_gate_ends_the_handshake() {
    let h = to_first_gate(Handshake::for_sortie(&fixture_sortie()));
    let (h, _) = advance(h, HandshakeEvent::GateDecided(Gate::AutoProceed));
    let (_, a) = advance(h, HandshakeEvent::DbFailed(sqlx::Error::RowNotFound));
    assert!(matches!(a, HandshakeAction::Finish(Err(HandshakeError::Db(_)))));
}

#[test]
fn matchers_pick_the_frames_of_their_wait() {
    let sid = "s".to_string();
    assert!(matches!(
        wait_sortie_received(&LegionReply::SortieReceived { sortie_id: "s".to_string() }, &sid),
        Some(Ok(()))
    ));
    assert!(wait_sortie_received(&LegionReply::Other, &sid).is_none());
    assert!(matches!(
        wait_step_complete(
            &LegionReply::StepComplete { sortie_id: "s".to_string(), step_index: 2 },
            &sid,
            2
        ),
        Some(Ok(()))
    ));
    assert!(wait_step_complete(
        &LegionReply::StepComplete { sortie_id: "s".to_string(), step_index: 1 },
        &sid,
        2
    )
    .is_none());
    match wait_step_complete(
        &LegionReply::SortieFailed {
            sortie_id: "s".to_string(),
            step_index: 1,
            reason: "motor".to_string(),
        },
        &sid,
        2,
    ) {
        Some(Err(HandshakeError::SortieFailed { step_index, reason })) => {
            assert_eq!(step_index, 1);
            assert_eq!(reason, "motor");
        }
        other => panic!("unexpected {:?}", other),
    }
    assert!(matches!(
        wait_step_complete(
            &LegionReply::SafetyEvent { kind: "Geofence".to_string(), action: "Rtl".to_string() },
            &sid,
            0
        ),
        Some(Err(HandshakeError::SafetyAbort { .. }))
    ));
    assert!(matches!(
        wait_sortie_complete(&LegionReply::SortieComplete { sortie_id: "s".to_string() }, &sid),
        Some(Ok(()))
    ));
    assert!(wait_sortie_complete(
        &LegionReply::SortieComplete { sortie_id: "t".to_string() },
        &sid
    )
    .is_none());
}

#[test]
fn supervisor_runs_sorties_in_order_then_completes() {
    let plan = PlanId(7);
    let s = Supervisor::new(plan, 2);
    let (s, a) = s.next(SupervisorEvent::Start);
    assert!(matches!(a, SupervisorAction::SetPlanStatus(PlanStatus::Executing)));
    let (s, a) = s.next(SupervisorEvent::Done);
    assert!(matches!(a, SupervisorAction::AuditPlanExecuting { sortie_count: 2 }));
    let (s, a) = s.next(SupervisorEvent::Done);
    match &a {
        SupervisorAction::RunSortie { pos, authority } => {
            assert_eq!(*pos, 0);
            assert_eq!(authority.plan_id(), plan);
        }
        other => panic!("unexpected {:?}", other),
    }
    let (s, a) = s.next(SupervisorEvent::SortieSucceeded);
    assert!(matches!(a, SupervisorAction::RunSortie { pos: 1, .. }));
    let (s, a) = s.next(SupervisorEvent::SortieSucceeded);
    assert!(matches!(a, SupervisorAction::SetPlanStatus(PlanStatus::Complete)));
    let (s, a) = s.next(SupervisorEvent::Done);
    assert!(matches!(a, SupervisorAction::AuditPlanComplete));
    let (_, a) = s.next(SupervisorEvent::Done);
    assert!(matches!(a, SupervisorAction::Finish(Ok(()))));
}

#[test]
fn supervisor_refuses_an_empty_plan() {
    let (_, a) = Supervisor::new(PlanId(1), 0).next(SupervisorEvent::Start);
    assert!(matches!(a, SupervisorAction::Finish(Err(ApplyError::EmptyPlan))));
}

#[test]
fn failed_sortie_fails_the_plan() {
    let s = Supervisor::new(PlanId(3), 2);
    let (s, _) = s.next(SupervisorEvent::Start);
    let (s, _) = s.next(SupervisorEvent::Done);
    let (s, _) = s.next(SupervisorEvent::Done);
    let (s, a) = s.next(SupervisorEvent::SortieFailed {
        error: HandshakeError::EventClosed,
        message: "event stream closed".to_string(),
    });
    assert!(matches!(a, SupervisorAction::SetSortieFailed { pos: 0, ref reason } if reason == "event stream closed"));
    let (s, a) = s.next(SupervisorEvent::DbFailed(sqlx::Error::RowNotFound));
    assert!(matches!(a, SupervisorAction::SetPlanStatus(PlanStatus::Failed)));
    let (s, a) = s.next(SupervisorEvent::Done);
    assert!(matches!(a, SupervisorAction::AuditPlanFailed { pos: 0, ref error } if error == "event stream closed"));
    let (_, a) = s.next(SupervisorEvent::Done);
    assert!(matches!(
        a,
        SupervisorAction::Finish(Err(ApplyError::Handshake(HandshakeError::EventClosed)))
    ));
}

#[test]
fn sortie_abort_signal_names_no_step() {
    let e = OperatorEvent::sortie_abort("s1".to_string(), None);
    assert_eq!(e.sortie_id, "s1");
    assert_eq!(e.step_index, u32::MAX);
    assert!(matches!(e.action, OperatorAction::Abort { ref reason } if reason == "operator abort"));
    let e = OperatorEvent::sortie_abort("s1".to_string(), Some("wind".to_string()));
    assert!(matches!(e.action, OperatorAction::Abort { ref reason } if reason == "wind"));
}

#[test]
fn authority_carries_its_plan_and_hold_reasons_have_names() {
    let (s, _) = Supervisor::new(PlanId(99), 1).next(SupervisorEvent::Start);
    let (s, _) = s.next(SupervisorEvent::Done);
    let (_, a) = s.next(SupervisorEvent::Done);
    let a: CommandAuthority = match a {
        SupervisorAction::RunSortie { authority, .. } => authority,
        other => panic!("unexpected {:?}", other),
    };
    assert_eq!(a.plan_id(), PlanId(99));
    assert_eq!(HoldReason::Conflict.as_str(), "fleet_conflict");
    assert_eq!(HoldReason::Operator.as_str(), "operator_pause");
    assert_eq!(HoldReason::Weather.as_str(), "weather_hold");
}

#[test]
fn waits_time_out_after_their_allowance() {
    assert_eq!(HandshakeAction::AwaitSortieReceived.timeout_s(600), Some(10));
    assert_eq!(HandshakeAction::AwaitStepComplete { step_index: 3 }.timeout_s(600), Some(600));
    assert_eq!(HandshakeAction::AwaitSortieComplete.timeout_s(600), Some(10));
    assert_eq!(HandshakeAction::AwaitOperatorDecision { step_index: 3 }.timeout_s(600), Some(600));
    assert_eq!(HandshakeAction::AwaitOperatorDecision { step_index: 3 }.timeout_s(45), Some(45));
    assert_eq!(HandshakeAction::UploadSortie.timeout_s(600), None);
}

/// The apply run of a one-sortie plan against a legion that acknowledges
/// everything: the supervisor drives the handshake, which drives the link.
#[test]
fn cooperative_apply_run_succeeds() {
    let listener = ListenerConfig {
        allowed_drones: vec!["drone-01".to_string()],
        shared_token: "test".to_string(),
        oracle_version: "test".to_string(),
    };
    assert!(matches!(
        decide_admission(&listener, &"drone-01".to_string(), 1, 1, true),
        Admission::Admitted
    ));

    let sortie = fixture_sortie();
    let plan_id = PlanId(0x0190_0000_0000_7000_8000_0000_0000_0001);
    let (sup, a) = Supervisor::new(plan_id, 1).next(SupervisorEvent::Start);
    assert!(matches!(a, SupervisorAction::SetPlanStatus(PlanStatus::Executing)));
    let (sup, _) = sup.next(SupervisorEvent::Done);
    let (sup, a) = sup.next(SupervisorEvent::Done);
    assert!(matches!(a, SupervisorAction::RunSortie { pos: 0, .. }));

    // The mock legion's side of the handshake.
    let mut received_upload = false;
    let mut proceed_count = 0usize;
    let mut completed = false;
    let mut h = Handshake::for_sortie(&sortie);
    let mut event = HandshakeEvent::Start;
    let result = loop {
        let (next, action) = h.next(event);
        h = next;
        event = match action {
            HandshakeAction::UploadSortie => {
                received_upload = true;
                HandshakeEvent::Done
            }
            HandshakeAction::AwaitSortieReceived => HandshakeEvent::Legion(
                LegionReply::SortieReceived { sortie_id: sortie.sortie_id.clone() },
            ),
            HandshakeAction::EvaluateGate { .. } => {
                HandshakeEvent::GateDecided(AutoProceedEvaluator.evaluate())
            }
            HandshakeAction::SendProceed { step_index } => {
                assert_eq!(step_index as usize, proceed_count);
                proceed_count += 1;
                HandshakeEvent::Done
            }
            HandshakeAction::AwaitStepComplete { step_index } => {
                HandshakeEvent::Legion(LegionReply::StepComplete {
                    sortie_id: sortie.sortie_id.clone(),
                    step_index,
                })
            }
            HandshakeAction::AwaitSortieComplete => {
                completed = true;
                HandshakeEvent::Legion(LegionReply::SortieComplete {
                    sortie_id: sortie.sortie_id.clone(),
                })
            }
            HandshakeAction::Finish(r) => break r,
            HandshakeAction::Noop => panic!("unexpected Noop"),
            _ => HandshakeEvent::Done,
        };
    };
    assert!(result.is_ok(), "supervisor should succeed");
    assert_eq!(proceed_count, sortie.steps.len(), "mock legion should have received one Proceed per step");
    assert!(received_upload, "mock legion received UploadSortie");
    assert!(completed, "mock legion sent SortieComplete");

    let (sup, a) = sup.next(SupervisorEvent::SortieSucceeded);
    assert!(matches!(a, SupervisorAction::SetPlanStatus(PlanStatus::Complete)));
    let (sup, _) = sup.next(SupervisorEvent::Done);
    let (_, a) = sup.next(SupervisorEvent::Done);
    assert!(matches!(a, SupervisorAction::Finish(Ok(()))));
}

#[test]
fn operator_gate_times_out_the_sortie() {
    let h = to_first_gate(Handshake::for_sortie(&fixture_sortie()));
    let (h, _) = advance(
        h,
        HandshakeEvent::GateDecided(Gate::OperatorRequired { reason: "r".to_string() }),
    );
    let (h, _) = advance(h, HandshakeEvent::Done);
    let (h, a) = advance(h, HandshakeEvent::Done);
    assert!(matches!(a, HandshakeAction::AwaitOperatorDecision { step_index: 0 }));
    let (h, a) = advance(h, HandshakeEvent::TimedOut);
    assert!(matches!(
        a,
        HandshakeAction::Finish(Err(HandshakeError::Timeout { what: "operator_decision" }))
    ));
    assert!(matches!(h.phase, HandshakePhase::Finished { ok: false }));
}
