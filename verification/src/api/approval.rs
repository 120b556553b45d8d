//! The approval of a plan (`POST /v1/plans/:id/approve`) as a state
//! machine. The driver reads the plan's summary and body, persists its
//! sorties, marks it approved and audits it, feeding each outcome back; the
//! machine decides which answer the request gets and guarantees that
//! nothing is written before every check has passed.

use vstd::prelude::*;

use crate::api::plans::{
    check_approval_preconditions, check_no_blocking_errors, parse_plan_id_param, trim_quotes,
};
use crate::domain::plan::{plan_status_text, PlanId, PlanStatus};
use crate::domain::uuid_text::uuid_text_value;
use crate::error::ApiError;
use crate::text::{decimal_text, joined};

verus! {

/// `e` is answered with HTTP status `status` and carries `message`.
pub open spec fn is_api_error(e: ApiError, status: u16, message: Seq<char>) -> bool {
    match e {
        ApiError::NotFound(m) => status == 404 && m@ == message,
        ApiError::BadRequest(m) => status == 400 && m@ == message,
        ApiError::Conflict(m) => status == 409 && m@ == message,
        ApiError::PreconditionFailed(m) => status == 412 && m@ == message,
        _ => false,
    }
}

/// The refusal, if any, of the If-Match and status preconditions: an
/// If-Match header (quotes stripped) must equal the body hash, then the plan
/// must be `Proposed`.
pub open spec fn precondition_refusal(
    id: Seq<char>,
    current: PlanStatus,
    body_hash: Seq<char>,
    if_match: Option<Seq<char>>,
) -> Option<(u16, Seq<char>)> {
    match if_match {
        Some(h) if trim_quotes(h) != body_hash => Some(
            (412u16, "If-Match mismatch: header="@ + trim_quotes(h) + ", current="@ + body_hash),
        ),
        _ => if current != PlanStatus::Proposed {
            Some(
                (
                    409u16,
                    "plan "@ + id + " is in "@ + plan_status_text(current)
                        + ", can only approve from Proposed"@,
                ),
            )
        } else {
            None
        },
    }
}

/// The refusal, if any, of a plan with `error_count` blocking errors.
pub open spec fn blocking_refusal(id: Seq<char>, error_count: nat) -> Option<(u16, Seq<char>)> {
    if error_count == 0 {
        None
    } else {
        Some((400u16, "plan "@ + id + " has "@ + decimal_text(error_count) + " blocking errors"@))
    }
}

/// The outcome of the driver's last action.
#[derive(Debug)]
pub enum ApprovalEvent {
    /// The plan's status and body hash, or `None` for an unknown plan.
    Summary(Option<(PlanStatus, String)>),
    /// The number of blocking errors of the plan's body, or `None` for an
    /// unknown plan.
    Plan(Option<usize>),
    /// The last write succeeded.
    Done,
    /// The last read or write failed.
    DbFailed(sqlx::Error),
}

/// What the driver must do next.
#[derive(Debug)]
pub enum ApprovalAction {
    /// Read the plan's status and body hash.
    ReadSummary { plan_id: PlanId },
    /// Read the plan's body.
    ReadPlan { plan_id: PlanId },
    /// Persist the plan's sorties and steps, and a roster row for each drone.
    PersistSorties { plan_id: PlanId },
    /// Mark the plan `Approved` by the local operator.
    SetApproved { plan_id: PlanId },
    /// Append the `plan_approved` audit entry (its failure is ignored).
    AuditApproved { plan_id: PlanId, body_hash: String },
    /// Start the plan's apply supervisor and answer that it is approved.
    Approved { plan_id: PlanId },
    /// Answer the request with this error.
    Refuse(ApiError),
    /// The event did not fit the current state; nothing to do.
    Noop,
}

/// Where an approval stands: which read or write it waits on, with the body
/// hash once the summary has been read.
#[derive(Debug)]
pub enum ApprovalPhase {
    ReadingSummary,
    ReadingPlan { body_hash: String },
    PersistingSorties { body_hash: String },
    SettingApproved { body_hash: String },
    AuditingApproved,
    Finished,
}

/// One approval request: the plan id as given in the path, its value, the
/// If-Match header, and the current phase.
#[derive(Debug)]
pub struct Approval {
    pub id: String,
    pub plan_id: PlanId,
    pub if_match: Option<String>,
    pub phase: ApprovalPhase,
}

/// The text of an optional header.
pub open spec fn header_text(o: Option<String>) -> Option<Seq<char>> {
    match o {
        Some(s) => Some(s@),
        None => None,
    }
}

/// `t` is the request of `s` in phase `phase`.
pub open spec fn in_phase(s: Approval, t: Approval, phase: ApprovalPhase) -> bool {
    &&& t.id == s.id
    &&& t.plan_id == s.plan_id
    &&& t.if_match == s.if_match
    &&& t.phase == phase
}

/// The request ends with an error answered by `status` and `message`.
pub open spec fn refused(s: Approval, r: (Approval, ApprovalAction), status: u16, message: Seq<char>) -> bool {
    &&& in_phase(s, r.0, ApprovalPhase::Finished)
    &&& r.1 matches ApprovalAction::Refuse(err) && is_api_error(err, status, message)
}

/// The request ends with the failed read or write `d`.
pub open spec fn failed(s: Approval, r: (Approval, ApprovalAction), d: sqlx::Error) -> bool {
    &&& in_phase(s, r.0, ApprovalPhase::Finished)
    &&& r.1 == ApprovalAction::Refuse(ApiError::Db(d))
}

/// One transition of the approval: `r` is the next state and action.
pub open spec fn approval_step(s: Approval, e: ApprovalEvent, r: (Approval, ApprovalAction)) -> bool {
    let stay = in_phase(s, r.0, s.phase) && r.1 is Noop;
    match s.phase {
        ApprovalPhase::ReadingSummary => match e {
            ApprovalEvent::Summary(None) => refused(s, r, 404, "plan "@ + s.id@),
            ApprovalEvent::Summary(Some((current, body_hash))) => match precondition_refusal(
                s.id@,
                current,
                body_hash@,
                header_text(s.if_match),
            ) {
                Some((status, message)) => refused(s, r, status, message),
                None => in_phase(s, r.0, ApprovalPhase::ReadingPlan { body_hash }) && r.1
                    == ApprovalAction::ReadPlan { plan_id: s.plan_id },
            },
            ApprovalEvent::DbFailed(d) => failed(s, r, d),
            _ => stay,
        },
        ApprovalPhase::ReadingPlan { body_hash } => match e {
            ApprovalEvent::Plan(None) => refused(s, r, 404, "plan "@ + s.id@),
            ApprovalEvent::Plan(Some(n)) => match blocking_refusal(s.id@, n as nat) {
                Some((status, message)) => refused(s, r, status, message),
                None => in_phase(s, r.0, ApprovalPhase::PersistingSorties { body_hash }) && r.1
                    == ApprovalAction::PersistSorties { plan_id: s.plan_id },
            },
            ApprovalEvent::DbFailed(d) => failed(s, r, d),
            _ => stay,
        },
        ApprovalPhase::PersistingSorties { body_hash } => match e {
            ApprovalEvent::Done => in_phase(s, r.0, ApprovalPhase::SettingApproved { body_hash })
                && r.1 == ApprovalAction::SetApproved { plan_id: s.plan_id },
            ApprovalEvent::DbFailed(d) => failed(s, r, d),
            _ => stay,
        },
        ApprovalPhase::SettingApproved { body_hash } => match e {
            ApprovalEvent::Done => in_phase(s, r.0, ApprovalPhase::AuditingApproved) && r.1
                == ApprovalAction::AuditApproved { plan_id: s.plan_id, body_hash },
            ApprovalEvent::DbFailed(d) => failed(s, r, d),
            _ => stay,
        },
        ApprovalPhase::AuditingApproved => match e {
            ApprovalEvent::Done | ApprovalEvent::DbFailed(_) => in_phase(
                s,
                r.0,
                ApprovalPhase::Finished,
            ) && r.1 == ApprovalAction::Approved { plan_id: s.plan_id },
            _ => stay,
        },
        ApprovalPhase::Finished => stay,
    }
}

impl Approval {
    /// Begin the approval of the plan named `id` in the path: an id that is
    /// not UUID text is a bad request; otherwise the summary is read first.
    pub fn start(id: String, if_match: Option<String>) -> (r: Result<
        (Approval, ApprovalAction),
        ApiError,
    >)
        ensures
            match uuid_text_value(id@) {
                Some(v) => r matches Ok((a, act)) && a.id == id && a.plan_id == PlanId(v)
                    && a.if_match == if_match && a.phase is ReadingSummary && act
                    == ApprovalAction::ReadSummary { plan_id: PlanId(v) },
                None => r matches Err(e) && is_api_error(e, 400, "invalid plan id: "@ + id@),
            },
    {
        match parse_plan_id_param(id.as_str()) {
            Ok(plan_id) => Ok(
                (
                    Approval { id, plan_id, if_match, phase: ApprovalPhase::ReadingSummary },
                    ApprovalAction::ReadSummary { plan_id },
                ),
            ),
            Err(e) => Err(e),
        }
    }

    /// Feed the outcome of the last action; returns the new state and the
    /// next action.
    pub fn next(self, event: ApprovalEvent) -> (r: (Approval, ApprovalAction))
        ensures
            approval_step(self, event, r),
    {
        let ghost s = self;
        let Approval { id, plan_id, if_match, phase } = self;
        match phase {
            ApprovalPhase::ReadingSummary => match event {
                ApprovalEvent::Summary(None) => {
                    let m = joined("plan ", id.as_str());
                    (
                        Approval { id, plan_id, if_match, phase: ApprovalPhase::Finished },
                        ApprovalAction::Refuse(ApiError::NotFound(m)),
                    )
                },
                ApprovalEvent::Summary(Some((current, body_hash))) => {
                    let header: Option<&str> = match &if_match {
                        Some(h) => Some(h.as_str()),
                        None => None,
                    };
                    match check_approval_preconditions(
                        id.as_str(),
                        current,
                        body_hash.as_str(),
                        header,
                    ) {
                        Ok(()) => (
                            Approval {
                                id,
                                plan_id,
                                if_match,
                                phase: ApprovalPhase::ReadingPlan { body_hash },
                            },
                            ApprovalAction::ReadPlan { plan_id },
                        ),
                        Err(e) => (
                            Approval { id, plan_id, if_match, phase: ApprovalPhase::Finished },
                            ApprovalAction::Refuse(e),
                        ),
                    }
                },
                ApprovalEvent::DbFailed(d) => (
                    Approval { id, plan_id, if_match, phase: ApprovalPhase::Finished },
                    ApprovalAction::Refuse(ApiError::Db(d)),
                ),
                _ => (
                    Approval { id, plan_id, if_match, phase: ApprovalPhase::ReadingSummary },
                    ApprovalAction::Noop,
                ),
            },
            ApprovalPhase::ReadingPlan { body_hash } => match event {
                ApprovalEvent::Plan(None) => {
                    let m = joined("plan ", id.as_str());
                    (
                        Approval { id, plan_id, if_match, phase: ApprovalPhase::Finished },
                        ApprovalAction::Refuse(ApiError::NotFound(m)),
                    )
                },
                ApprovalEvent::Plan(Some(n)) => match check_no_blocking_errors(id.as_str(), n) {
                    Ok(()) => (
                        Approval {
                            id,
                            plan_id,
                            if_match,
                            phase: ApprovalPhase::PersistingSorties { body_hash },
                        },
                        ApprovalAction::PersistSorties { plan_id },
                    ),
                    Err(e) => (
                        Approval { id, plan_id, if_match, phase: ApprovalPhase::Finished },
                        ApprovalAction::Refuse(e),
                    ),
                },
                ApprovalEvent::DbFailed(d) => (
                    Approval { id, plan_id, if_match, phase: ApprovalPhase::Finished },
                    ApprovalAction::Refuse(ApiError::Db(d)),
                ),
                _ => (
                    Approval { id, plan_id, if_match, phase: ApprovalPhase::ReadingPlan { body_hash } },
                    ApprovalAction::Noop,
                ),
            },
            ApprovalPhase::PersistingSorties { body_hash } => match event {
                ApprovalEvent::Done => (
                    Approval {
                        id,
                        plan_id,
                        if_match,
                        phase: ApprovalPhase::SettingApproved { body_hash },
                    },
                    ApprovalAction::SetApproved { plan_id },
                ),
                ApprovalEvent::DbFailed(d) => (
                    Approval { id, plan_id, if_match, phase: ApprovalPhase::Finished },
                    ApprovalAction::Refuse(ApiError::Db(d)),
                ),
                _ => (
                    Approval {
                        id,
                        plan_id,
                        if_match,
                        phase: ApprovalPhase::PersistingSorties { body_hash },
                    },
                    ApprovalAction::Noop,
                ),
            },
            ApprovalPhase::SettingApproved { body_hash } => match event {
                ApprovalEvent::Done => (
                    Approval { id, plan_id, if_match, phase: ApprovalPhase::AuditingApproved },
                    ApprovalAction::AuditApproved { plan_id, body_hash },
                ),
                ApprovalEvent::DbFailed(d) => (
                    Approval { id, plan_id, if_match, phase: ApprovalPhase::Finished },
                    ApprovalAction::Refuse(ApiError::Db(d)),
                ),
                _ => (
                    Approval {
                        id,
                        plan_id,
                        if_match,
                        phase: ApprovalPhase::SettingApproved { body_hash },
                    },
                    ApprovalAction::Noop,
                ),
            },
            ApprovalPhase::AuditingApproved => match event {
                ApprovalEvent::Done | ApprovalEvent::DbFailed(_) => (
                    Approval { id, plan_id, if_match, phase: ApprovalPhase::Finished },
                    ApprovalAction::Approved { plan_id },
                ),
                _ => (
                    Approval { id, plan_id, if_match, phase: ApprovalPhase::AuditingApproved },
                    ApprovalAction::Noop,
                ),
            },
            ApprovalPhase::Finished => (
                Approval { id, plan_id, if_match, phase: ApprovalPhase::Finished },
                ApprovalAction::Noop,
            ),
        }
    }
}

/// Nothing is written before every check has passed: the sorties are
/// persisted only once the plan was found with no blocking error, and the
/// plan is read only once its summary was found and met the If-Match and
/// status preconditions; the approval and its audit entry follow the
/// persisted sorties in turn. A request about an unknown plan is answered
/// 404 before any other check, and a refused request writes nothing more.
pub proof fn lemma_approval_writes_after_checks(
    s: Approval,
    e: ApprovalEvent,
    r: (Approval, ApprovalAction),
)
    requires
        approval_step(s, e, r),
    ensures
        r.1 is PersistSorties ==> s.phase is ReadingPlan && e == ApprovalEvent::Plan(Some(0usize)),
        r.1 is ReadPlan ==> s.phase is ReadingSummary && (e matches ApprovalEvent::Summary(
            Some((current, body_hash)),
        ) && precondition_refusal(s.id@, current, body_hash@, header_text(s.if_match)) is None),
        r.1 is SetApproved ==> s.phase is PersistingSorties && e is Done,
        r.1 is AuditApproved ==> s.phase is SettingApproved && e is Done,
        r.1 is Approved ==> s.phase is AuditingApproved,
        s.phase is ReadingSummary && e == ApprovalEvent::Summary(None) ==> refused(
            s,
            r,
            404,
            "plan "@ + s.id@,
        ),
        r.1 is Refuse ==> r.0.phase is Finished,
        s.phase is Finished ==> r.1 is Noop && r.0.phase is Finished,
{
    match s.phase {
        ApprovalPhase::ReadingSummary => match e {
            ApprovalEvent::Summary(Some((current, body_hash))) => {
                match precondition_refusal(s.id@, current, body_hash@, header_text(s.if_match)) {
                    Some(_) => {},
                    None => {},
                }
            },
            _ => {},
        },
        ApprovalPhase::ReadingPlan { body_hash } => match e {
            ApprovalEvent::Plan(Some(n)) => {
                if n != 0 {
                    assert(blocking_refusal(s.id@, n as nat) is Some);
                }
            },
            _ => {},
        },
        _ => {},
    }
}

/// The checks of an approval, stated over the request and the plan that
/// was read. An If-Match header whose text, stripped of its quotes, differs
/// from the plan's body hash is refused with 412, whatever the plan's
/// status. Otherwise a plan that is not `Proposed` is refused with 409.
/// Otherwise the plan's body is read next. A body with blocking errors is
/// refused with 400 and its error count; one without goes on to have its
/// sorties persisted. Each refusal ends the request.
pub proof fn lemma_approval_check_outcomes(
    s: Approval,
    e: ApprovalEvent,
    r: (Approval, ApprovalAction),
)
    requires
        approval_step(s, e, r),
    ensures
        s.phase is ReadingSummary ==> match e {
            ApprovalEvent::Summary(Some((current, body_hash))) => match s.if_match {
                Some(h) if trim_quotes(h@) != body_hash@ => {
                    &&& r.0.phase is Finished
                    &&& r.1 matches ApprovalAction::Refuse(ApiError::PreconditionFailed(m))
                    &&& m@ == "If-Match mismatch: header="@ + trim_quotes(h@) + ", current="@
                        + body_hash@
                },
                _ => if current != PlanStatus::Proposed {
                    &&& r.0.phase is Finished
                    &&& r.1 matches ApprovalAction::Refuse(ApiError::Conflict(m))
                    &&& m@ == "plan "@ + s.id@ + " is in "@ + plan_status_text(current)
                        + ", can only approve from Proposed"@
                } else {
                    &&& r.0.phase == (ApprovalPhase::ReadingPlan { body_hash })
                    &&& r.1 == (ApprovalAction::ReadPlan { plan_id: s.plan_id })
                },
            },
            ApprovalEvent::Summary(None) => {
                &&& r.0.phase is Finished
                &&& r.1 matches ApprovalAction::Refuse(ApiError::NotFound(m))
                &&& m@ == "plan "@ + s.id@
            },
            _ => true,
        },
        s.phase is ReadingPlan ==> match e {
            ApprovalEvent::Plan(Some(n)) => if n > 0 {
                &&& r.0.phase is Finished
                &&& r.1 matches ApprovalAction::Refuse(ApiError::BadRequest(m))
                &&& m@ == "plan "@ + s.id@ + " has "@ + decimal_text(n as nat)
                    + " blocking errors"@
            } else {
                &&& r.0.phase is PersistingSorties
                &&& r.1 == (ApprovalAction::PersistSorties { plan_id: s.plan_id })
            },
            ApprovalEvent::Plan(None) => {
                &&& r.0.phase is Finished
                &&& r.1 matches ApprovalAction::Refuse(ApiError::NotFound(m))
                &&& m@ == "plan "@ + s.id@
            },
            _ => true,
        },
        r.0.id == s.id && r.0.plan_id == s.plan_id && r.0.if_match == s.if_match,
{
}

/// The writes of an approval that passed its checks: once the sorties are
/// persisted the plan is marked approved, once it is marked the approval is
/// audited with the body hash read at the start, and the audit's outcome,
/// success or not, answers that the plan is approved. A failed read or a
/// failed persist or mark ends the request with the database's error.
pub proof fn lemma_approval_writes(s: Approval, e: ApprovalEvent, r: (Approval, ApprovalAction))
    requires
        approval_step(s, e, r),
    ensures
        match s.phase {
            ApprovalPhase::PersistingSorties { body_hash } => match e {
                ApprovalEvent::Done => r.0.phase == (ApprovalPhase::SettingApproved { body_hash })
                    && r.1 == (ApprovalAction::SetApproved { plan_id: s.plan_id }),
                ApprovalEvent::DbFailed(d) => r.0.phase is Finished && r.1
                    == ApprovalAction::Refuse(ApiError::Db(d)),
                _ => r.1 is Noop,
            },
            ApprovalPhase::SettingApproved { body_hash } => match e {
                ApprovalEvent::Done => r.0.phase is AuditingApproved && r.1
                    == (ApprovalAction::AuditApproved { plan_id: s.plan_id, body_hash }),
                ApprovalEvent::DbFailed(d) => r.0.phase is Finished && r.1
                    == ApprovalAction::Refuse(ApiError::Db(d)),
                _ => r.1 is Noop,
            },
            ApprovalPhase::AuditingApproved => match e {
                ApprovalEvent::Done | ApprovalEvent::DbFailed(_) => r.0.phase is Finished && r.1
                    == (ApprovalAction::Approved { plan_id: s.plan_id }),
                _ => r.1 is Noop,
            },
            ApprovalPhase::ReadingSummary | ApprovalPhase::ReadingPlan { .. } => match e {
                ApprovalEvent::DbFailed(d) => r.0.phase is Finished && r.1
                    == ApprovalAction::Refuse(ApiError::Db(d)),
                _ => true,
            },
            ApprovalPhase::Finished => r.1 is Noop && r.0.phase is Finished,
        },
{
}

} // verus!
