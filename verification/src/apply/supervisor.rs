//! The apply supervisor of one plan, as a state machine: it marks the plan
//! executing, runs each sortie's handshake in order, and settles the plan
//! as complete or failed.

use vstd::prelude::*;

use crate::apply::handshake::{HandshakeError, HandshakeErrorView};
use crate::domain::plan::{PlanId, PlanStatus};
use crate::legion_link::authority::CommandAuthority;

verus! {

/// One operator action on a gated step, fanned out to running supervisors.
#[derive(Debug, Clone)]
pub struct OperatorEvent {
    pub sortie_id: String,
    pub step_index: u32,
    pub action: OperatorAction,
}

#[derive(Debug, Clone)]
pub enum OperatorAction {
    Proceed,
    Hold,
    Abort { reason: String },
}

impl OperatorEvent {
    /// The signal sent when an operator aborts a whole sortie: it names no
    /// particular step, so it carries the largest step index, and an absent
    /// reason reads `operator abort`.
    pub fn sortie_abort(sortie_id: String, reason: Option<String>) -> (r: OperatorEvent)
        ensures
            r.sortie_id == sortie_id,
            r.step_index == u32::MAX,
            r.action is Abort,
            r.action->Abort_reason@ == match reason {
                Some(s) => s@,
                None => "operator abort"@,
            },
    {
        let reason = match reason {
            Some(s) => s,
            None => crate::text::owned("operator abort"),
        };
        OperatorEvent { sortie_id, step_index: u32::MAX, action: OperatorAction::Abort { reason } }
    }
}

/// Why an apply run stopped.
#[derive(Debug)]
pub enum ApplyError {
    PlanNotFound(PlanId),
    NotApproved { plan_id: PlanId, actual: PlanStatus },
    EmptyPlan,
    Handshake(HandshakeError),
    Db(sqlx::Error),
}

pub enum ApplyErrorView {
    PlanNotFound(PlanId),
    NotApproved { plan_id: PlanId, actual: PlanStatus },
    EmptyPlan,
    Handshake(HandshakeErrorView),
    Db(sqlx::Error),
}

impl View for ApplyError {
    type V = ApplyErrorView;

    open spec fn view(&self) -> ApplyErrorView {
        match self {
            ApplyError::PlanNotFound(p) => ApplyErrorView::PlanNotFound(*p),
            ApplyError::NotApproved { plan_id, actual } => ApplyErrorView::NotApproved {
                plan_id: *plan_id,
                actual: *actual,
            },
            ApplyError::EmptyPlan => ApplyErrorView::EmptyPlan,
            ApplyError::Handshake(e) => ApplyErrorView::Handshake(e@),
            ApplyError::Db(e) => ApplyErrorView::Db(*e),
        }
    }
}

/// The outcome of the last action, reported by the driver.
#[derive(Debug)]
pub enum SupervisorEvent {
    Start,
    /// The last write succeeded.
    Done,
    /// The last write failed.
    DbFailed(sqlx::Error),
    /// The last sortie's handshake finished successfully.
    SortieSucceeded,
    /// The last sortie's handshake failed; `message` is the error's text.
    SortieFailed { error: HandshakeError, message: String },
}

pub enum SupervisorEventView {
    Start,
    Done,
    DbFailed(sqlx::Error),
    SortieSucceeded,
    SortieFailed { error: HandshakeErrorView, message: Seq<char> },
}

impl View for SupervisorEvent {
    type V = SupervisorEventView;

    open spec fn view(&self) -> SupervisorEventView {
        match self {
            SupervisorEvent::Start => SupervisorEventView::Start,
            SupervisorEvent::Done => SupervisorEventView::Done,
            SupervisorEvent::DbFailed(e) => SupervisorEventView::DbFailed(*e),
            SupervisorEvent::SortieSucceeded => SupervisorEventView::SortieSucceeded,
            SupervisorEvent::SortieFailed { error, message } => SupervisorEventView::SortieFailed {
                error: error@,
                message: message@,
            },
        }
    }
}

/// What the driver must do next.
#[derive(Debug)]
pub enum SupervisorAction {
    /// Write the plan's status.
    SetPlanStatus(PlanStatus),
    /// Append the `plan_executing` audit entry.
    AuditPlanExecuting { sortie_count: usize },
    /// Run the handshake of the sortie at position `pos` with `authority`.
    RunSortie { pos: usize, authority: CommandAuthority },
    /// Mark the sortie at `pos` failed with `reason` (its failure is ignored).
    SetSortieFailed { pos: usize, reason: String },
    /// Append the `plan_failed` audit entry (its failure is ignored).
    AuditPlanFailed { pos: usize, error: String },
    /// Append the `plan_complete` audit entry.
    AuditPlanComplete,
    /// The run is over.
    Finish(Result<(), ApplyError>),
    /// The event did not fit the current state; nothing to do.
    Noop,
}

pub enum SupervisorActionView {
    SetPlanStatus(PlanStatus),
    AuditPlanExecuting { sortie_count: int },
    RunSortie { pos: int, plan_id: PlanId },
    SetSortieFailed { pos: int, reason: Seq<char> },
    AuditPlanFailed { pos: int, error: Seq<char> },
    AuditPlanComplete,
    Finish(Result<(), ApplyErrorView>),
    Noop,
}

impl View for SupervisorAction {
    type V = SupervisorActionView;

    open spec fn view(&self) -> SupervisorActionView {
        match self {
            SupervisorAction::SetPlanStatus(s) => SupervisorActionView::SetPlanStatus(*s),
            SupervisorAction::AuditPlanExecuting { sortie_count } =>
                SupervisorActionView::AuditPlanExecuting { sortie_count: *sortie_count as int },
            SupervisorAction::RunSortie { pos, authority } => SupervisorActionView::RunSortie {
                pos: *pos as int,
                plan_id: authority.spec_plan_id(),
            },
            SupervisorAction::SetSortieFailed { pos, reason } =>
                SupervisorActionView::SetSortieFailed { pos: *pos as int, reason: reason@ },
            SupervisorAction::AuditPlanFailed { pos, error } =>
                SupervisorActionView::AuditPlanFailed { pos: *pos as int, error: error@ },
            SupervisorAction::AuditPlanComplete => SupervisorActionView::AuditPlanComplete,
            SupervisorAction::Finish(r) => SupervisorActionView::Finish(
                match r {
                    Ok(()) => Ok(()),
                    Err(e) => Err(e@),
                },
            ),
            SupervisorAction::Noop => SupervisorActionView::Noop,
        }
    }
}

#[derive(Debug)]
pub enum SupervisorPhase {
    Ready,
    MarkingExecuting,
    AuditingExecuting,
    RunningSortie { pos: usize },
    MarkingSortieFailed { pos: usize, error: HandshakeError, message: String },
    MarkingPlanFailed { pos: usize, error: HandshakeError, message: String },
    AuditingFailure { error: HandshakeError },
    MarkingComplete,
    AuditingComplete,
    Finished { ok: bool },
}

pub enum SupervisorPhaseView {
    Ready,
    MarkingExecuting,
    AuditingExecuting,
    RunningSortie { pos: int },
    MarkingSortieFailed { pos: int, error: HandshakeErrorView, message: Seq<char> },
    MarkingPlanFailed { pos: int, error: HandshakeErrorView, message: Seq<char> },
    AuditingFailure { error: HandshakeErrorView },
    MarkingComplete,
    AuditingComplete,
    Finished { ok: bool },
}

impl View for SupervisorPhase {
    type V = SupervisorPhaseView;

    open spec fn view(&self) -> SupervisorPhaseView {
        match self {
            SupervisorPhase::Ready => SupervisorPhaseView::Ready,
            SupervisorPhase::MarkingExecuting => SupervisorPhaseView::MarkingExecuting,
            SupervisorPhase::AuditingExecuting => SupervisorPhaseView::AuditingExecuting,
            SupervisorPhase::RunningSortie { pos } => SupervisorPhaseView::RunningSortie {
                pos: *pos as int,
            },
            SupervisorPhase::MarkingSortieFailed { pos, error, message } =>
                SupervisorPhaseView::MarkingSortieFailed {
                    pos: *pos as int,
                    error: error@,
                    message: message@,
                },
            SupervisorPhase::MarkingPlanFailed { pos, error, message } =>
                SupervisorPhaseView::MarkingPlanFailed {
                    pos: *pos as int,
                    error: error@,
                    message: message@,
                },
            SupervisorPhase::AuditingFailure { error } => SupervisorPhaseView::AuditingFailure {
                error: error@,
            },
            SupervisorPhase::MarkingComplete => SupervisorPhaseView::MarkingComplete,
            SupervisorPhase::AuditingComplete => SupervisorPhaseView::AuditingComplete,
            SupervisorPhase::Finished { ok } => SupervisorPhaseView::Finished { ok: *ok },
        }
    }
}

/// The supervisor of one approved plan.
#[derive(Debug)]
pub struct Supervisor {
    pub plan_id: PlanId,
    pub sortie_count: usize,
    pub phase: SupervisorPhase,
}

pub struct SupervisorView {
    pub plan_id: PlanId,
    pub sortie_count: int,
    pub phase: SupervisorPhaseView,
}

impl View for Supervisor {
    type V = SupervisorView;

    open spec fn view(&self) -> SupervisorView {
        SupervisorView {
            plan_id: self.plan_id,
            sortie_count: self.sortie_count as int,
            phase: self.phase@,
        }
    }
}

impl SupervisorView {
    /// The same supervisor in another phase.
    pub open spec fn with_phase(self, phase: SupervisorPhaseView) -> SupervisorView {
        SupervisorView { phase, ..self }
    }

    /// Positions held by the phase name an existing sortie, and the phases
    /// past the start exist only for a plan with sorties.
    pub open spec fn wf(self) -> bool {
        match self.phase {
            SupervisorPhaseView::MarkingExecuting => 0 < self.sortie_count,
            SupervisorPhaseView::AuditingExecuting => 0 < self.sortie_count,
            SupervisorPhaseView::RunningSortie { pos } => 0 <= pos < self.sortie_count,
            SupervisorPhaseView::MarkingSortieFailed { pos, .. } => 0 <= pos < self.sortie_count,
            SupervisorPhaseView::MarkingPlanFailed { pos, .. } => 0 <= pos < self.sortie_count,
            _ => true,
        }
    }
}

/// End the run with `r`.
pub open spec fn finish_with(s: SupervisorView, r: Result<(), ApplyErrorView>) -> (
    SupervisorView,
    SupervisorActionView,
) {
    (s.with_phase(SupervisorPhaseView::Finished { ok: r is Ok }), SupervisorActionView::Finish(r))
}

/// Run the sortie at position `pos` with an authority for the plan.
pub open spec fn run_sortie(s: SupervisorView, pos: int) -> (SupervisorView, SupervisorActionView) {
    (
        s.with_phase(SupervisorPhaseView::RunningSortie { pos }),
        SupervisorActionView::RunSortie { pos, plan_id: s.plan_id },
    )
}

/// One transition of the supervisor.
pub open spec fn supervisor_step(s: SupervisorView, e: SupervisorEventView) -> (
    SupervisorView,
    SupervisorActionView,
) {
    let stay = (s, SupervisorActionView::Noop);
    match s.phase {
        SupervisorPhaseView::Ready => match e {
            SupervisorEventView::Start => if s.sortie_count == 0 {
                finish_with(s, Err(ApplyErrorView::EmptyPlan))
            } else {
                (
                    s.with_phase(SupervisorPhaseView::MarkingExecuting),
                    SupervisorActionView::SetPlanStatus(PlanStatus::Executing),
                )
            },
            _ => stay,
        },
        SupervisorPhaseView::MarkingExecuting => match e {
            SupervisorEventView::Done => (
                s.with_phase(SupervisorPhaseView::AuditingExecuting),
                SupervisorActionView::AuditPlanExecuting { sortie_count: s.sortie_count },
            ),
            SupervisorEventView::DbFailed(d) => finish_with(s, Err(ApplyErrorView::Db(d))),
            _ => stay,
        },
        SupervisorPhaseView::AuditingExecuting => match e {
            SupervisorEventView::Done => run_sortie(s, 0),
            SupervisorEventView::DbFailed(d) => finish_with(s, Err(ApplyErrorView::Db(d))),
            _ => stay,
        },
        SupervisorPhaseView::RunningSortie { pos } => match e {
            SupervisorEventView::SortieSucceeded => if pos + 1 < s.sortie_count {
                run_sortie(s, pos + 1)
            } else {
                (
                    s.with_phase(SupervisorPhaseView::MarkingComplete),
                    SupervisorActionView::SetPlanStatus(PlanStatus::Complete),
                )
            },
            SupervisorEventView::SortieFailed { error, message } => (
                s.with_phase(SupervisorPhaseView::MarkingSortieFailed { pos, error, message }),
                SupervisorActionView::SetSortieFailed { pos, reason: message },
            ),
            _ => stay,
        },
        SupervisorPhaseView::MarkingSortieFailed { pos, error, message } => match e {
            SupervisorEventView::Done | SupervisorEventView::DbFailed(_) => (
                s.with_phase(SupervisorPhaseView::MarkingPlanFailed { pos, error, message }),
                SupervisorActionView::SetPlanStatus(PlanStatus::Failed),
            ),
            _ => stay,
        },
        SupervisorPhaseView::MarkingPlanFailed { pos, error, message } => match e {
            SupervisorEventView::Done | SupervisorEventView::DbFailed(_) => (
                s.with_phase(SupervisorPhaseView::AuditingFailure { error }),
                SupervisorActionView::AuditPlanFailed { pos, error: message },
            ),
            _ => stay,
        },
        SupervisorPhaseView::AuditingFailure { error } => match e {
            SupervisorEventView::Done | SupervisorEventView::DbFailed(_) => finish_with(
                s,
                Err(ApplyErrorView::Handshake(error)),
            ),
            _ => stay,
        },
        SupervisorPhaseView::MarkingComplete => match e {
            SupervisorEventView::Done => (
                s.with_phase(SupervisorPhaseView::AuditingComplete),
                SupervisorActionView::AuditPlanComplete,
            ),
            SupervisorEventView::DbFailed(d) => finish_with(s, Err(ApplyErrorView::Db(d))),
            _ => stay,
        },
        SupervisorPhaseView::AuditingComplete => match e {
            SupervisorEventView::Done => finish_with(s, Ok(())),
            SupervisorEventView::DbFailed(d) => finish_with(s, Err(ApplyErrorView::Db(d))),
            _ => stay,
        },
        SupervisorPhaseView::Finished { .. } => stay,
    }
}

impl Supervisor {
    /// A supervisor for a plan with `sortie_count` sorties.
    pub fn new(plan_id: PlanId, sortie_count: usize) -> (r: Supervisor)
        ensures
            r@ == (SupervisorView {
                plan_id,
                sortie_count: sortie_count as int,
                phase: SupervisorPhaseView::Ready,
            }),
    {
        Supervisor { plan_id, sortie_count, phase: SupervisorPhase::Ready }
    }

    fn finish(plan_id: PlanId, sortie_count: usize, r: Result<(), ApplyError>) -> (out: (
        Supervisor,
        SupervisorAction,
    ))
        ensures
            (out.0@, out.1@) == finish_with(
                SupervisorView {
                    plan_id,
                    sortie_count: sortie_count as int,
                    phase: SupervisorPhaseView::Ready,
                },
                match r {
                    Ok(()) => Ok(()),
                    Err(e) => Err(e@),
                },
            ),
    {
        let ok = r.is_ok();
        (
            Supervisor { plan_id, sortie_count, phase: SupervisorPhase::Finished { ok } },
            SupervisorAction::Finish(r),
        )
    }

    fn start_sortie(plan_id: PlanId, sortie_count: usize, pos: usize) -> (out: (Supervisor, SupervisorAction))
        ensures
            (out.0@, out.1@) == run_sortie(
                SupervisorView {
                    plan_id,
                    sortie_count: sortie_count as int,
                    phase: SupervisorPhaseView::Ready,
                },
                pos as int,
            ),
    {
        (
            Supervisor { plan_id, sortie_count, phase: SupervisorPhase::RunningSortie { pos } },
            SupervisorAction::RunSortie {
                pos,
                authority: CommandAuthority::for_approved_plan(plan_id),
            },
        )
    }

    /// Feed the outcome of the last action to the supervisor; returns the
    /// new state and the next action to perform.
    pub fn next(self, event: SupervisorEvent) -> (r: (Supervisor, SupervisorAction))
        requires
            self@.wf(),
        ensures
            (r.0@, r.1@) == supervisor_step(self@, event@),
            r.0@.wf(),
    {
        let Supervisor { plan_id, sortie_count, phase } = self;
        match phase {
            SupervisorPhase::Ready => match event {
                SupervisorEvent::Start => {
                    if sortie_count == 0 {
                        Self::finish(plan_id, sortie_count, Err(ApplyError::EmptyPlan))
                    } else {
                        (
                            Supervisor { plan_id, sortie_count, phase: SupervisorPhase::MarkingExecuting },
                            SupervisorAction::SetPlanStatus(PlanStatus::Executing),
                        )
                    }
                },
                _ => (Supervisor { plan_id, sortie_count, phase: SupervisorPhase::Ready }, SupervisorAction::Noop),
            },
            SupervisorPhase::MarkingExecuting => match event {
                SupervisorEvent::Done => (
                    Supervisor { plan_id, sortie_count, phase: SupervisorPhase::AuditingExecuting },
                    SupervisorAction::AuditPlanExecuting { sortie_count },
                ),
                SupervisorEvent::DbFailed(d) => Self::finish(plan_id, sortie_count, Err(ApplyError::Db(d))),
                _ => (
                    Supervisor { plan_id, sortie_count, phase: SupervisorPhase::MarkingExecuting },
                    SupervisorAction::Noop,
                ),
            },
            SupervisorPhase::AuditingExecuting => match event {
                SupervisorEvent::Done => Self::start_sortie(plan_id, sortie_count, 0),
                SupervisorEvent::DbFailed(d) => Self::finish(plan_id, sortie_count, Err(ApplyError::Db(d))),
                _ => (
                    Supervisor { plan_id, sortie_count, phase: SupervisorPhase::AuditingExecuting },
                    SupervisorAction::Noop,
                ),
            },
            SupervisorPhase::RunningSortie { pos } => match event {
                SupervisorEvent::SortieSucceeded => {
                    if pos + 1 < sortie_count {
                        Self::start_sortie(plan_id, sortie_count, pos + 1)
                    } else {
                        (
                            Supervisor { plan_id, sortie_count, phase: SupervisorPhase::MarkingComplete },
                            SupervisorAction::SetPlanStatus(PlanStatus::Complete),
                        )
                    }
                },
                SupervisorEvent::SortieFailed { error, message } => {
                    let reason = message.clone();
                    (
                        Supervisor {
                            plan_id,
                            sortie_count,
                            phase: SupervisorPhase::MarkingSortieFailed { pos, error, message },
                        },
                        SupervisorAction::SetSortieFailed { pos, reason },
                    )
                },
                _ => (
                    Supervisor { plan_id, sortie_count, phase: SupervisorPhase::RunningSortie { pos } },
                    SupervisorAction::Noop,
                ),
            },
            SupervisorPhase::MarkingSortieFailed { pos, error, message } => match event {
                SupervisorEvent::Done | SupervisorEvent::DbFailed(_) => (
                    Supervisor {
                        plan_id,
                        sortie_count,
                        phase: SupervisorPhase::MarkingPlanFailed { pos, error, message },
                    },
                    SupervisorAction::SetPlanStatus(PlanStatus::Failed),
                ),
                _ => (
                    Supervisor {
                        plan_id,
                        sortie_count,
                        phase: SupervisorPhase::MarkingSortieFailed { pos, error, message },
                    },
                    SupervisorAction::Noop,
                ),
            },
            SupervisorPhase::MarkingPlanFailed { pos, error, message } => match event {
                SupervisorEvent::Done | SupervisorEvent::DbFailed(_) => (
                    Supervisor { plan_id, sortie_count, phase: SupervisorPhase::AuditingFailure { error } },
                    SupervisorAction::AuditPlanFailed { pos, error: message },
                ),
                _ => (
                    Supervisor {
                        plan_id,
                        sortie_count,
                        phase: SupervisorPhase::MarkingPlanFailed { pos, error, message },
                    },
                    SupervisorAction::Noop,
                ),
            },
            SupervisorPhase::AuditingFailure { error } => match event {
                SupervisorEvent::Done | SupervisorEvent::DbFailed(_) => Self::finish(
                    plan_id,
                    sortie_count,
                    Err(ApplyError::Handshake(error)),
                ),
                _ => (
                    Supervisor { plan_id, sortie_count, phase: SupervisorPhase::AuditingFailure { error } },
                    SupervisorAction::Noop,
                ),
            },
            SupervisorPhase::MarkingComplete => match event {
                SupervisorEvent::Done => (
                    Supervisor { plan_id, sortie_count, phase: SupervisorPhase::AuditingComplete },
                    SupervisorAction::AuditPlanComplete,
                ),
                SupervisorEvent::DbFailed(d) => Self::finish(plan_id, sortie_count, Err(ApplyError::Db(d))),
                _ => (
                    Supervisor { plan_id, sortie_count, phase: SupervisorPhase::MarkingComplete },
                    SupervisorAction::Noop,
                ),
            },
            SupervisorPhase::AuditingComplete => match event {
                SupervisorEvent::Done => Self::finish(plan_id, sortie_count, Ok(())),
                SupervisorEvent::DbFailed(d) => Self::finish(plan_id, sortie_count, Err(ApplyError::Db(d))),
                _ => (
                    Supervisor { plan_id, sortie_count, phase: SupervisorPhase::AuditingComplete },
                    SupervisorAction::Noop,
                ),
            },
            SupervisorPhase::Finished { ok } => (
                Supervisor { plan_id, sortie_count, phase: SupervisorPhase::Finished { ok } },
                SupervisorAction::Noop,
            ),
        }
    }
}

/// A plan is marked complete only when its last sortie succeeded; a sortie
/// runs only as the first one (after the executing mark and its audit) or
/// right after the previous one succeeded.
pub proof fn lemma_sorties_run_in_order(s: SupervisorView, e: SupervisorEventView)
    requires
        s.wf(),
    ensures
        ({
            let a = supervisor_step(s, e).1;
            &&& a == SupervisorActionView::SetPlanStatus(PlanStatus::Complete) ==> {
                &&& s.phase == (SupervisorPhaseView::RunningSortie { pos: s.sortie_count - 1 })
                &&& e is SortieSucceeded
            }
            &&& a is RunSortie ==> {
                let p = a->RunSortie_pos;
                &&& a->RunSortie_plan_id == s.plan_id
                &&& 0 <= p < s.sortie_count
                &&& (p == 0 && s.phase is AuditingExecuting && e is Done) || (s.phase
                    == (SupervisorPhaseView::RunningSortie { pos: p - 1 }) && e is SortieSucceeded)
            }
            &&& a == SupervisorActionView::Finish(Ok(())) ==> s.phase is AuditingComplete
        }),
{
}

/// A failed sortie fails the plan: whatever the outcome of the three
/// follow-up writes, the sortie is marked failed with the error's text, the
/// plan is marked failed, the failure is audited and the run ends with the
/// handshake's error.
pub proof fn lemma_failed_sortie_fails_plan(
    s: SupervisorView,
    error: HandshakeErrorView,
    message: Seq<char>,
    w1: SupervisorEventView,
    w2: SupervisorEventView,
    w3: SupervisorEventView,
)
    requires
        s.wf(),
        s.phase is RunningSortie,
        w1 is Done || w1 is DbFailed,
        w2 is Done || w2 is DbFailed,
        w3 is Done || w3 is DbFailed,
    ensures
        ({
            let pos = s.phase->RunningSortie_pos;
            let r0 = supervisor_step(s, SupervisorEventView::SortieFailed { error, message });
            let r1 = supervisor_step(r0.0, w1);
            let r2 = supervisor_step(r1.0, w2);
            let r3 = supervisor_step(r2.0, w3);
            &&& r0.1 == (SupervisorActionView::SetSortieFailed { pos, reason: message })
            &&& r1.1 == SupervisorActionView::SetPlanStatus(PlanStatus::Failed)
            &&& r2.1 == (SupervisorActionView::AuditPlanFailed { pos, error: message })
            &&& r3.1 == SupervisorActionView::Finish(Err(ApplyErrorView::Handshake(error)))
            &&& r3.0.phase == (SupervisorPhaseView::Finished { ok: false })
        }),
{
}

/// A plan without sorties is refused before anything is written.
pub proof fn lemma_empty_plan_refused(s: SupervisorView)
    requires
        s.phase is Ready,
        s.sortie_count == 0,
    ensures
        supervisor_step(s, SupervisorEventView::Start).1 == SupervisorActionView::Finish(
            Err(ApplyErrorView::EmptyPlan),
        ),
{
}

/// The run's own writes: a plan with sorties is first marked `Executing`,
/// then its start is audited with the sortie count; after the last sortie
/// the plan is marked `Complete` and that is audited. A failure of any of
/// these four writes ends the run with the database's error (the writes
/// after a failed sortie are different: their failures are ignored). When
/// the run finishes, its phase says whether it succeeded.
pub proof fn lemma_run_writes(s: SupervisorView, e: SupervisorEventView)
    requires
        s.wf(),
    ensures
        ({
            let r = supervisor_step(s, e);
            &&& (s.phase is Ready && e is Start && s.sortie_count > 0) ==> r == (
                s.with_phase(SupervisorPhaseView::MarkingExecuting),
                SupervisorActionView::SetPlanStatus(PlanStatus::Executing),
            )
            &&& (s.phase is MarkingExecuting && e is Done) ==> r.1 == (
            SupervisorActionView::AuditPlanExecuting { sortie_count: s.sortie_count })
            &&& (s.phase is MarkingComplete && e is Done) ==> r.1
                == SupervisorActionView::AuditPlanComplete
            &&& e matches SupervisorEventView::DbFailed(d) ==> match s.phase {
                SupervisorPhaseView::MarkingExecuting | SupervisorPhaseView::AuditingExecuting
                | SupervisorPhaseView::MarkingComplete | SupervisorPhaseView::AuditingComplete => r
                    == (
                    s.with_phase(SupervisorPhaseView::Finished { ok: false }),
                    SupervisorActionView::Finish(Err(ApplyErrorView::Db(d))),
                ),
                _ => true,
            }
            &&& r.1 matches SupervisorActionView::Finish(res) ==> r.0.phase
                == (SupervisorPhaseView::Finished { ok: res is Ok })
            &&& s.phase is Finished ==> r == (s, SupervisorActionView::Noop)
        }),
{
}

} // verus!
