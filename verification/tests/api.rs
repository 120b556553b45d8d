use oracle::api::approval::{Approval, ApprovalAction, ApprovalEvent, ApprovalPhase};
use oracle::api::plans::{
    check_approval_preconditions, check_intent_regions, check_no_blocking_errors,
    default_audit_limit, default_limit, parse_plan_id_param, parse_status_filter,
    trim_quote_marks, StepGateBody,
};
use oracle::cli::{Command, PlanArgs, ServeArgs, StubArgs};
use oracle::config::{LegionLinkConfig, RtkConfig, ServerConfig, StorageConfig, TransportKind};
use oracle::domain::amendment::PlanAmendment;
use oracle::domain::intent::OperatorConstraints;
use oracle::domain::plan::{PlanId, PlanStatus};
use oracle::error::ApiError;
use oracle::fleet::monitor::{detect_conflicts, tick_interval_ms};
use oracle::fleet::state::FleetTable;
use oracle::legion_link::server::{decide_admission, Admission, ListenerConfig};
use oracle::legion_link::session::{millis_as_u64, now_ms};
use oracle::slicer::SlicerError;

fn message(e: ApiError) -> String {
    match e {
        ApiError::NotFound(m)
        | ApiError::BadRequest(m)
        | ApiError::Conflict(m)
        | ApiError::PreconditionFailed(m) => m,
        other => panic!("unexpected {:?}", other),
    }
}

#[test]
fn query_defaults() {
    assert_eq!(default_limit(), 50);
    assert_eq!(default_audit_limit(), 200);
    assert!(StepGateBody::default().reason.is_none());
}

#[test]
fn intent_without_regions_is_a_bad_request() {
    let e = check_intent_regions(0).unwrap_err();
    assert_eq!(e.status(), 400);
    assert_eq!(message(e), "intent has no regions");
    assert!(check_intent_regions(2).is_ok());
}

#[test]
fn status_filter_parses_or_refuses() {
    assert!(parse_status_filter(None).unwrap().is_none());
    assert_eq!(parse_status_filter(Some("Proposed")).unwrap(), Some(PlanStatus::Proposed));
    let e = parse_status_filter(Some("Nope")).unwrap_err();
    assert_eq!(e.status(), 400);
    assert_eq!(message(e), "unknown plan status: Nope");
}

#[test]
fn plan_id_param_parses_or_refuses() {
    assert_eq!(
        parse_plan_id_param("00000000-0000-0000-0000-000000000000").unwrap(),
        PlanId(0)
    );
    let e = parse_plan_id_param("abc").unwrap_err();
    assert_eq!(message(e), "invalid plan id: abc");
}

#[test]
fn quote_marks_are_trimmed_from_both_ends() {
    assert_eq!(trim_quote_marks("\"abc\""), "abc");
    assert_eq!(trim_quote_marks("\"\"abc"), "abc");
    assert_eq!(trim_quote_marks("abc\""), "abc");
    assert_eq!(trim_quote_marks("a\"b"), "a\"b");
    assert_eq!(trim_quote_marks("\"\"\""), "");
    assert_eq!(trim_quote_marks(""), "");
}

#[test]
fn approval_checks_if_match_then_status() {
    assert!(check_approval_preconditions("p1", PlanStatus::Proposed, "h1", None).is_ok());
    assert!(check_approval_preconditions("p1", PlanStatus::Proposed, "h1", Some("\"h1\"")).is_ok());
    let e = check_approval_preconditions("p1", PlanStatus::Approved, "h1", Some("\"h2\""))
        .unwrap_err();
    assert_eq!(e.status(), 412);
    assert_eq!(message(e), "If-Match mismatch: header=h2, current=h1");
    let e = check_approval_preconditions("p1", PlanStatus::Executing, "h1", Some("h1")).unwrap_err();
    assert_eq!(e.status(), 409);
    assert_eq!(message(e), "plan p1 is in Executing, can only approve from Proposed");
}

#[test]
fn blocking_errors_prevent_approval() {
    assert!(check_no_blocking_errors("p1", 0).is_ok());
    let e = check_no_blocking_errors("p1", 3).unwrap_err();
    assert_eq!(e.status(), 400);
    assert_eq!(message(e), "plan p1 has 3 blocking errors");
}

#[test]
fn api_errors_map_to_status_and_problem_type() {
    let cases: Vec<(ApiError, u16, &str)> = vec![
        (ApiError::NotFound("x".to_string()), 404, "/v1/errors/not-found"),
        (ApiError::BadRequest("x".to_string()), 400, "/v1/errors/bad-request"),
        (ApiError::Conflict("x".to_string()), 409, "/v1/errors/conflict"),
        (ApiError::PreconditionFailed("x".to_string()), 412, "/v1/errors/precondition-failed"),
        (ApiError::NotImplemented("replan"), 501, "/v1/errors/not-implemented"),
        (ApiError::Internal(anyhow::Error::msg("boom")), 500, "/v1/errors/internal"),
        (ApiError::Db(sqlx::Error::RowNotFound), 500, "/v1/errors/db"),
        (ApiError::Slicer(SlicerError::NoRegions), 500, "/v1/errors/slicer"),
    ];
    for (e, status, uri) in cases {
        assert_eq!(e.status(), status);
        assert_eq!(e.type_uri(), uri);
    }
}

fn listener() -> ListenerConfig {
    ListenerConfig {
        allowed_drones: vec!["drone-01".to_string(), "drone-02".to_string()],
        shared_token: "dev-token".to_string(),
        oracle_version: "0.1.0".to_string(),
    }
}

#[test]
fn admission_checks_version_then_hello_then_allowlist() {
    let cfg = listener();
    match decide_admission(&cfg, &"drone-01".to_string(), 2, 1, true) {
        Admission::VersionMismatch { reason } => {
            assert_eq!(reason, "version mismatch: oracle expects 1, got 2")
        }
        other => panic!("unexpected {:?}", other),
    }
    assert!(matches!(
        decide_admission(&cfg, &"drone-01".to_string(), 1, 1, false),
        Admission::NotHello
    ));
    assert!(matches!(
        decide_admission(&cfg, &"drone-99".to_string(), 1, 1, true),
        Admission::NotAllowed
    ));
    assert!(matches!(
        decide_admission(&cfg, &"drone-02".to_string(), 1, 1, true),
        Admission::Admitted
    ));
}

#[test]
fn config_defaults() {
    let s = ServerConfig::default();
    assert_eq!(s.http_addr, "127.0.0.1:7345");
    assert_eq!(s.unix_socket, "/var/run/oracle/oracle.sock");
    let st = StorageConfig::default();
    assert_eq!(st.state_dir, "/var/lib/oracle");
    assert_eq!(st.db_path(), "/var/lib/oracle/oracle.db");
    assert_eq!(StorageConfig { state_dir: "/tmp/x/".to_string() }.db_path(), "/tmp/x/oracle.db");
    let l = LegionLinkConfig::default();
    assert_eq!(l.kind, TransportKind::Tcp);
    assert_eq!(l.serial_path, "/dev/ttyUSB0");
    assert_eq!(l.serial_baud, 57600);
    assert_eq!(l.tcp_listen, "0.0.0.0:7346");
    assert_eq!(l.allowed_drones, vec!["drone-01".to_string()]);
    assert_eq!(l.shared_token, "dev-token");
    assert_eq!(l.heartbeat_to_legion_hz, 2);
    assert_eq!(l.legion_heartbeat_timeout_ms, 3000);
    assert_eq!(l.operator_gate_timeout_s, 600);
    let r = RtkConfig::default();
    assert_eq!(r.source, "serial:/dev/ttyUSB-rtk:115200");
    assert_eq!(r.broadcast_hz, 1);
}

#[test]
fn only_serve_and_plan_are_implemented() {
    assert!(Command::Serve(ServeArgs {}).is_implemented());
    assert!(Command::Plan(PlanArgs { intent: "i.json".to_string(), drone: "d".to_string() })
        .is_implemented());
    let stub = || StubArgs { daemon_url: "http://127.0.0.1:7345".to_string() };
    assert!(!Command::Apply(stub()).is_implemented());
    assert!(!Command::Status(stub()).is_implemented());
    assert!(!Command::Abort(stub()).is_implemented());
    assert!(!Command::Audit(stub()).is_implemented());
}

#[test]
fn amendments_that_need_approval() {
    let down: PlanAmendment<()> =
        PlanAmendment::DroneDown { drone_id: "d".to_string(), reassigned_to: vec![] };
    assert!(!down.requires_approval());
    assert_eq!(down.kind_str(), "drone_down");
    let failed: PlanAmendment<()> =
        PlanAmendment::SortieFailed { sortie_id: "s".to_string(), reason: "r".to_string() };
    assert!(!failed.requires_approval());
    let pause: PlanAmendment<()> = PlanAmendment::PauseAll;
    assert!(pause.requires_approval());
    assert_eq!(pause.kind_str(), "pause_all");
    let hold: PlanAmendment<()> =
        PlanAmendment::WeatherHold { affected_sorties: vec![], resume_estimate: 0 };
    assert!(hold.requires_approval());
    assert_eq!(hold.kind_str(), "weather_hold");
    let add = PlanAmendment::AddRegion { region: 5u8 };
    assert!(add.requires_approval());
    assert_eq!(add.kind_str(), "add_region");
    assert_eq!(PlanAmendment::<()>::AbortAndLand.kind_str(), "abort_and_land");
    assert_eq!(
        PlanAmendment::<()>::SkipRegion { region_id: "r".to_string() }.kind_str(),
        "skip_region"
    );
    let c = OperatorConstraints::default();
    assert!(c.time_window.is_none() && c.max_concurrent_drones.is_none() && c.notes.is_none());
}

#[test]
fn fleet_table_records_and_marks_stale() {
    let mut t: FleetTable<u32> = FleetTable::new();
    assert!(t.snapshot().is_empty());
    t.record_telemetry("drone-01", 1);
    t.record_telemetry("drone-02", 2);
    t.record_telemetry("drone-01", 3);
    t.mark_stale("drone-02");
    t.mark_stale("drone-99");
    let snap = t.snapshot();
    assert_eq!(snap.len(), 2);
    assert_eq!(snap[0].0, "drone-01");
    assert_eq!(snap[0].1.last_telemetry, Some(3));
    assert!(!snap[0].1.is_stale);
    assert_eq!(snap[1].0, "drone-02");
    assert_eq!(snap[1].1.last_telemetry, Some(2));
    assert!(snap[1].1.is_stale);
    t.record_telemetry("drone-02", 4);
    let snap = t.snapshot();
    assert!(!snap[1].1.is_stale);
    assert_eq!(snap[1].1.last_telemetry, Some(4));
}

#[test]
fn monitor_tick_and_conflicts() {
    assert_eq!(tick_interval_ms(0), 200);
    assert_eq!(tick_interval_ms(5), 200);
    assert_eq!(tick_interval_ms(1), 1000);
    assert_eq!(tick_interval_ms(3), 333);
    assert!(detect_conflicts::<u8>(&[]).is_empty());
    let two = vec![("a".to_string(), 1u8), ("b".to_string(), 1u8)];
    assert!(detect_conflicts(&two).is_empty());
}

#[test]
fn clock_millis() {
    assert_eq!(millis_as_u64(None), 0);
    assert_eq!(millis_as_u64(Some(1234)), 1234);
    assert_eq!(millis_as_u64(Some(u128::MAX)), u64::MAX);
    assert!(now_ms() > 1_600_000_000_000);
}

const PLAN: &str = "0190a1b2-c3d4-7e5f-8a9b-0c1d2e3f4a5b";

fn started(if_match: Option<&str>) -> Approval {
    let (a, act) = Approval::start(PLAN.to_string(), if_match.map(str::to_string)).unwrap();
    assert!(matches!(act, ApprovalAction::ReadSummary { plan_id } if plan_id == a.plan_id));
    a
}

fn refusal(act: ApprovalAction) -> ApiError {
    match act {
        ApprovalAction::Refuse(e) => e,
        other => panic!("unexpected {:?}", other),
    }
}

#[test]
fn approval_refuses_a_malformed_id() {
    let e = Approval::start("nope".to_string(), None).unwrap_err();
    assert_eq!(e.status(), 400);
    assert_eq!(message(e), "invalid plan id: nope");
}

#[test]
fn approval_of_an_unknown_plan_is_not_found_before_other_checks() {
    let (a, act) = started(Some("\"other\"")).next(ApprovalEvent::Summary(None));
    assert!(matches!(a.phase, ApprovalPhase::Finished));
    let e = refusal(act);
    assert_eq!(e.status(), 404);
    assert_eq!(message(e), format!("plan {PLAN}"));
}

#[test]
fn approval_checks_if_match_before_status() {
    let (_, act) = started(Some("\"h2\""))
        .next(ApprovalEvent::Summary(Some((PlanStatus::Approved, "h1".to_string()))));
    let e = refusal(act);
    assert_eq!(e.status(), 412);
    assert_eq!(message(e), "If-Match mismatch: header=h2, current=h1");
    let (_, act) = started(Some("\"h1\""))
        .next(ApprovalEvent::Summary(Some((PlanStatus::Approved, "h1".to_string()))));
    let e = refusal(act);
    assert_eq!(e.status(), 409);
    assert_eq!(message(e), format!("plan {PLAN} is in Approved, can only approve from Proposed"));
}

#[test]
fn approval_refuses_a_missing_body_and_blocking_errors() {
    let (a, act) = started(None).next(ApprovalEvent::Summary(Some((PlanStatus::Proposed, "h".to_string()))));
    assert!(matches!(act, ApprovalAction::ReadPlan { .. }));
    let (_, act) = a.next(ApprovalEvent::Plan(None));
    assert_eq!(refusal(act).status(), 404);

    let (a, _) = started(None).next(ApprovalEvent::Summary(Some((PlanStatus::Proposed, "h".to_string()))));
    let (a, act) = a.next(ApprovalEvent::Plan(Some(2)));
    assert!(matches!(a.phase, ApprovalPhase::Finished));
    let e = refusal(act);
    assert_eq!(e.status(), 400);
    assert_eq!(message(e), format!("plan {PLAN} has 2 blocking errors"));
    let (_, act) = a.next(ApprovalEvent::Done);
    assert!(matches!(act, ApprovalAction::Noop));
}

#[test]
fn approval_writes_in_order_then_answers_approved() {
    let a = started(Some("h"));
    let id = a.plan_id;
    let (a, act) = a.next(ApprovalEvent::Summary(Some((PlanStatus::Proposed, "h".to_string()))));
    assert!(matches!(act, ApprovalAction::ReadPlan { plan_id } if plan_id == id));
    let (a, act) = a.next(ApprovalEvent::Done);
    assert!(matches!(act, ApprovalAction::Noop));
    let (a, act) = a.next(ApprovalEvent::Plan(Some(0)));
    assert!(matches!(act, ApprovalAction::PersistSorties { plan_id } if plan_id == id));
    let (a, act) = a.next(ApprovalEvent::Done);
    assert!(matches!(act, ApprovalAction::SetApproved { plan_id } if plan_id == id));
    let (a, act) = a.next(ApprovalEvent::Done);
    assert!(matches!(act, ApprovalAction::AuditApproved { plan_id, ref body_hash } if plan_id == id && body_hash == "h"));
    let (a, act) = a.next(ApprovalEvent::DbFailed(sqlx::Error::RowNotFound));
    assert!(matches!(act, ApprovalAction::Approved { plan_id } if plan_id == id));
    assert!(matches!(a.phase, ApprovalPhase::Finished));
}

#[test]
fn approval_stops_at_a_failed_write() {
    let (a, _) = started(None).next(ApprovalEvent::Summary(Some((PlanStatus::Proposed, "h".to_string()))));
    let (a, _) = a.next(ApprovalEvent::Plan(Some(0)));
    let (a, act) = a.next(ApprovalEvent::DbFailed(sqlx::Error::RowNotFound));
    assert!(matches!(act, ApprovalAction::Refuse(ApiError::Db(sqlx::Error::RowNotFound))));
    assert!(matches!(a.phase, ApprovalPhase::Finished));
}
