//! The step-confirmation handshake for one sortie, as a state machine.
//!
//! The driver performs each [`HandshakeAction`] (an audit write, a link
//! send, a database write, a gate evaluation or a wait on legion's event
//! stream) and feeds its outcome back as a [`HandshakeEvent`]. The machine
//! decides everything else: which step comes next, when to proceed, hold
//! or abort, which legion frames answer a wait and which error ends the
//! sortie.

use vstd::prelude::*;

use crate::apply::gate::{Gate, GateView};
use crate::legion_link::LinkError;
use crate::protocol::{LegionReply, LegionReplyView, Sortie};
use crate::store::sorties::SortieStatus;
use crate::store::steps::GateDecision;
use crate::text::{joined, owned};

verus! {

/// Why a sortie's handshake stopped.
#[derive(Debug)]
pub enum HandshakeError {
    Link(LinkError),
    EventLag(u64),
    EventClosed,
    Timeout { what: &'static str },
    SortieRejected { reason: String },
    SortieFailed { step_index: u32, reason: String },
    SafetyAbort { kind: String, action: String },
    OperatorAborted { reason: String },
    Db(sqlx::Error),
}

pub enum HandshakeErrorView {
    Link(LinkError),
    EventLag(u64),
    EventClosed,
    Timeout { what: Seq<char> },
    SortieRejected { reason: Seq<char> },
    SortieFailed { step_index: u32, reason: Seq<char> },
    SafetyAbort { kind: Seq<char>, action: Seq<char> },
    OperatorAborted { reason: Seq<char> },
    Db(sqlx::Error),
}

impl View for HandshakeError {
    type V = HandshakeErrorView;

    open spec fn view(&self) -> HandshakeErrorView {
        match self {
            HandshakeError::Link(e) => HandshakeErrorView::Link(*e),
            HandshakeError::EventLag(n) => HandshakeErrorView::EventLag(*n),
            HandshakeError::EventClosed => HandshakeErrorView::EventClosed,
            HandshakeError::Timeout { what } => HandshakeErrorView::Timeout { what: what@ },
            HandshakeError::SortieRejected { reason } => HandshakeErrorView::SortieRejected {
                reason: reason@,
            },
            HandshakeError::SortieFailed { step_index, reason } =>
                HandshakeErrorView::SortieFailed { step_index: *step_index, reason: reason@ },
            HandshakeError::SafetyAbort { kind, action } => HandshakeErrorView::SafetyAbort {
                kind: kind@,
                action: action@,
            },
            HandshakeError::OperatorAborted { reason } => HandshakeErrorView::OperatorAborted {
                reason: reason@,
            },
            HandshakeError::Db(e) => HandshakeErrorView::Db(*e),
        }
    }
}

/// How a wait on legion's event stream ends, seen through its view.
pub open spec fn outcome_view(o: Option<Result<(), HandshakeError>>) -> Option<
    Result<(), HandshakeErrorView>,
> {
    match o {
        None => None,
        Some(Ok(())) => Some(Ok(())),
        Some(Err(e)) => Some(Err(e@)),
    }
}

/// The answer a legion frame gives to the wait for `SortieReceived`.
pub open spec fn received_outcome(m: LegionReplyView, sortie_id: Seq<char>) -> Option<
    Result<(), HandshakeErrorView>,
> {
    match m {
        LegionReplyView::SortieReceived { sortie_id: sid } => if sid == sortie_id {
            Some(Ok(()))
        } else {
            None
        },
        LegionReplyView::Error { code, message } => Some(
            Err(HandshakeErrorView::SortieRejected { reason: code + ": "@ + message }),
        ),
        _ => None,
    }
}

/// The answer a legion frame gives to the wait for step `step_index`.
pub open spec fn step_outcome(m: LegionReplyView, sortie_id: Seq<char>, step_index: u32) -> Option<
    Result<(), HandshakeErrorView>,
> {
    match m {
        LegionReplyView::StepComplete { sortie_id: sid, step_index: idx } => if sid == sortie_id
            && idx == step_index {
            Some(Ok(()))
        } else {
            None
        },
        LegionReplyView::SortieFailed { sortie_id: sid, step_index: idx, reason } => if sid
            == sortie_id {
            Some(Err(HandshakeErrorView::SortieFailed { step_index: idx, reason }))
        } else {
            None
        },
        LegionReplyView::SafetyEvent { kind, action } => Some(
            Err(HandshakeErrorView::SafetyAbort { kind, action }),
        ),
        _ => None,
    }
}

/// The answer a legion frame gives to the wait for `SortieComplete`.
pub open spec fn completion_outcome(m: LegionReplyView, sortie_id: Seq<char>) -> Option<
    Result<(), HandshakeErrorView>,
> {
    match m {
        LegionReplyView::SortieComplete { sortie_id: sid } => if sid == sortie_id {
            Some(Ok(()))
        } else {
            None
        },
        _ => None,
    }
}

/// Matches a frame against the wait for `SortieReceived`: the matching
/// receipt ends the wait, an error frame rejects the upload.
pub fn wait_sortie_received(m: &LegionReply, sortie_id: &String) -> (r: Option<
    Result<(), HandshakeError>,
>)
    ensures
        outcome_view(r) == received_outcome(m@, sortie_id@),
{
    match m {
        LegionReply::SortieReceived { sortie_id: sid } => {
            if *sid == *sortie_id {
                Some(Ok(()))
            } else {
                None
            }
        },
        LegionReply::Error { code, message } => {
            let mut reason = joined(code.as_str(), ": ");
            reason.append(message.as_str());
            Some(Err(HandshakeError::SortieRejected { reason }))
        },
        _ => None,
    }
}

/// Matches a frame against the wait for the completion of one step.
pub fn wait_step_complete(m: &LegionReply, sortie_id: &String, step_index: u32) -> (r: Option<
    Result<(), HandshakeError>,
>)
    ensures
        outcome_view(r) == step_outcome(m@, sortie_id@, step_index),
{
    match m {
        LegionReply::StepComplete { sortie_id: sid, step_index: idx } => {
            if *sid == *sortie_id && *idx == step_index {
                Some(Ok(()))
            } else {
                None
            }
        },
        LegionReply::SortieFailed { sortie_id: sid, step_index: idx, reason } => {
            if *sid == *sortie_id {
                Some(Err(HandshakeError::SortieFailed { step_index: *idx, reason: reason.clone() }))
            } else {
                None
            }
        },
        LegionReply::SafetyEvent { kind, action } => {
            Some(Err(HandshakeError::SafetyAbort { kind: kind.clone(), action: action.clone() }))
        },
        _ => None,
    }
}

/// Matches a frame against the wait for `SortieComplete`.
pub fn wait_sortie_complete(m: &LegionReply, sortie_id: &String) -> (r: Option<
    Result<(), HandshakeError>,
>)
    ensures
        outcome_view(r) == completion_outcome(m@, sortie_id@),
{
    match m {
        LegionReply::SortieComplete { sortie_id: sid } => {
            if *sid == *sortie_id {
                Some(Ok(()))
            } else {
                None
            }
        },
        _ => None,
    }
}

/// The outcome of the last action, or an input the driver received.
#[derive(Debug)]
pub enum HandshakeEvent {
    /// Begin the handshake.
    Start,
    /// The last action (a write, a send or an audit) succeeded.
    Done,
    /// The last link send failed.
    LinkFailed(LinkError),
    /// The last database write failed.
    DbFailed(sqlx::Error),
    /// The evaluator's gate decision for the current step.
    GateDecided(Gate),
    /// A frame arrived on legion's event stream.
    Legion(LegionReply),
    /// The event stream dropped this many frames.
    EventsLagged(u64),
    /// The event stream closed.
    EventsClosed,
    /// The current wait ran out of time.
    TimedOut,
    /// An operator acted on a gated step.
    Operator { sortie_id: String, step_index: u32 },
    /// The operator channel dropped signals.
    OperatorLagged,
    /// The operator channel closed.
    OperatorClosed,
    /// An operator decision is needed but no operator channel is attached.
    NoOperatorChannel,
}

pub enum HandshakeEventView {
    Start,
    Done,
    LinkFailed(LinkError),
    DbFailed(sqlx::Error),
    GateDecided(GateView),
    Legion(LegionReplyView),
    EventsLagged(u64),
    EventsClosed,
    TimedOut,
    Operator { sortie_id: Seq<char>, step_index: u32 },
    OperatorLagged,
    OperatorClosed,
    NoOperatorChannel,
}

impl View for HandshakeEvent {
    type V = HandshakeEventView;

    open spec fn view(&self) -> HandshakeEventView {
        match self {
            HandshakeEvent::Start => HandshakeEventView::Start,
            HandshakeEvent::Done => HandshakeEventView::Done,
            HandshakeEvent::LinkFailed(e) => HandshakeEventView::LinkFailed(*e),
            HandshakeEvent::DbFailed(e) => HandshakeEventView::DbFailed(*e),
            HandshakeEvent::GateDecided(g) => HandshakeEventView::GateDecided(g@),
            HandshakeEvent::Legion(m) => HandshakeEventView::Legion(m@),
            HandshakeEvent::EventsLagged(n) => HandshakeEventView::EventsLagged(*n),
            HandshakeEvent::EventsClosed => HandshakeEventView::EventsClosed,
            HandshakeEvent::TimedOut => HandshakeEventView::TimedOut,
            HandshakeEvent::Operator { sortie_id, step_index } => HandshakeEventView::Operator {
                sortie_id: sortie_id@,
                step_index: *step_index,
            },
            HandshakeEvent::OperatorLagged => HandshakeEventView::OperatorLagged,
            HandshakeEvent::OperatorClosed => HandshakeEventView::OperatorClosed,
            HandshakeEvent::NoOperatorChannel => HandshakeEventView::NoOperatorChannel,
        }
    }
}

/// What the driver must do next.
#[derive(Debug)]
pub enum HandshakeAction {
    /// Append the `sortie_dispatch_start` audit entry (its failure is ignored).
    AuditDispatchStart,
    /// Upload the sortie to its drone.
    UploadSortie,
    /// Write the sortie's status.
    SetSortieStatus { status: SortieStatus, reason: Option<String> },
    /// Wait (acknowledgement timeout) for legion's `SortieReceived`.
    AwaitSortieReceived,
    /// Ask the evaluator for a gate on the step at position `pos`.
    EvaluateGate { pos: usize },
    /// Record a step's gate decision.
    RecordStepGated { step_index: u32, decision: GateDecision, reason: Option<String> },
    /// Tell legion it may start step `step_index`.
    SendProceed { step_index: u32 },
    /// Tell legion to hold before the next step.
    SendHold { reason: String },
    /// Wait for an operator decision on step `step_index`.
    AwaitOperatorDecision { step_index: u32 },
    /// Abort the sortie on legion's side.
    SendAbort { reason: String },
    /// Record that a step is running.
    RecordStepRunning { step_index: u32 },
    /// Wait (step timeout) for legion to report step `step_index` done.
    AwaitStepComplete { step_index: u32 },
    /// Record the completion of a step with the telemetry that came with it.
    RecordStepComplete { step_index: u32 },
    /// Wait (acknowledgement timeout) for legion's `SortieComplete`.
    AwaitSortieComplete,
    /// Append the `sortie_complete` audit entry (its failure is ignored).
    AuditSortieComplete,
    /// The handshake is over.
    Finish(Result<(), HandshakeError>),
    /// The event did not fit the current state; nothing to do.
    Noop,
}

pub enum HandshakeActionView {
    AuditDispatchStart,
    UploadSortie,
    SetSortieStatus { status: SortieStatus, reason: Option<Seq<char>> },
    AwaitSortieReceived,
    EvaluateGate { pos: int },
    RecordStepGated { step_index: u32, decision: GateDecision, reason: Option<Seq<char>> },
    SendProceed { step_index: u32 },
    SendHold { reason: Seq<char> },
    AwaitOperatorDecision { step_index: u32 },
    SendAbort { reason: Seq<char> },
    RecordStepRunning { step_index: u32 },
    AwaitStepComplete { step_index: u32 },
    RecordStepComplete { step_index: u32 },
    AwaitSortieComplete,
    AuditSortieComplete,
    Finish(Result<(), HandshakeErrorView>),
    Noop,
}

/// The text of an optional string.
pub open spec fn opt_text(o: Option<String>) -> Option<Seq<char>> {
    match o {
        Some(s) => Some(s@),
        None => None,
    }
}

impl View for HandshakeAction {
    type V = HandshakeActionView;

    open spec fn view(&self) -> HandshakeActionView {
        match self {
            HandshakeAction::AuditDispatchStart => HandshakeActionView::AuditDispatchStart,
            HandshakeAction::UploadSortie => HandshakeActionView::UploadSortie,
            HandshakeAction::SetSortieStatus { status, reason } =>
                HandshakeActionView::SetSortieStatus { status: *status, reason: opt_text(*reason) },
            HandshakeAction::AwaitSortieReceived => HandshakeActionView::AwaitSortieReceived,
            HandshakeAction::EvaluateGate { pos } => HandshakeActionView::EvaluateGate {
                pos: *pos as int,
            },
            HandshakeAction::RecordStepGated { step_index, decision, reason } =>
                HandshakeActionView::RecordStepGated {
                    step_index: *step_index,
                    decision: *decision,
                    reason: opt_text(*reason),
                },
            HandshakeAction::SendProceed { step_index } => HandshakeActionView::SendProceed {
                step_index: *step_index,
            },
            HandshakeAction::SendHold { reason } => HandshakeActionView::SendHold {
                reason: reason@,
            },
            HandshakeAction::AwaitOperatorDecision { step_index } =>
                HandshakeActionView::AwaitOperatorDecision { step_index: *step_index },
            HandshakeAction::SendAbort { reason } => HandshakeActionView::SendAbort {
                reason: reason@,
            },
            HandshakeAction::RecordStepRunning { step_index } =>
                HandshakeActionView::RecordStepRunning { step_index: *step_index },
            HandshakeAction::AwaitStepComplete { step_index } =>
                HandshakeActionView::AwaitStepComplete { step_index: *step_index },
            HandshakeAction::RecordStepComplete { step_index } =>
                HandshakeActionView::RecordStepComplete { step_index: *step_index },
            HandshakeAction::AwaitSortieComplete => HandshakeActionView::AwaitSortieComplete,
            HandshakeAction::AuditSortieComplete => HandshakeActionView::AuditSortieComplete,
            HandshakeAction::Finish(r) => HandshakeActionView::Finish(
                match r {
                    Ok(()) => Ok(()),
                    Err(e) => Err(e@),
                },
            ),
            HandshakeAction::Noop => HandshakeActionView::Noop,
        }
    }
}

/// Where the handshake stands: each phase waits for the outcome of the
/// action that was emitted on entering it.
#[derive(Debug)]
pub enum HandshakePhase {
    Ready,
    AuditingStart,
    Uploading,
    MarkingUploaded,
    AwaitingReceived,
    MarkingExecuting,
    EvaluatingGate { pos: usize },
    RecordingGate { pos: usize, gate: Gate },
    SendingProceed { pos: usize },
    SendingHold { pos: usize },
    AwaitingOperator { pos: usize },
    SendingConflictHold { with: String },
    SendingAbort { reason: String },
    MarkingAborted { reason: String },
    MarkingRunning { pos: usize },
    AwaitingStep { pos: usize },
    RecordingComplete { pos: usize },
    AwaitingSortieComplete,
    MarkingComplete,
    AuditingComplete,
    Finished { ok: bool },
}

pub enum HandshakePhaseView {
    Ready,
    AuditingStart,
    Uploading,
    MarkingUploaded,
    AwaitingReceived,
    MarkingExecuting,
    EvaluatingGate { pos: int },
    RecordingGate { pos: int, gate: GateView },
    SendingProceed { pos: int },
    SendingHold { pos: int },
    AwaitingOperator { pos: int },
    SendingConflictHold { with: Seq<char> },
    SendingAbort { reason: Seq<char> },
    MarkingAborted { reason: Seq<char> },
    MarkingRunning { pos: int },
    AwaitingStep { pos: int },
    RecordingComplete { pos: int },
    AwaitingSortieComplete,
    MarkingComplete,
    AuditingComplete,
    Finished { ok: bool },
}

impl View for HandshakePhase {
    type V = HandshakePhaseView;

    open spec fn view(&self) -> HandshakePhaseView {
        match self {
            HandshakePhase::Ready => HandshakePhaseView::Ready,
            HandshakePhase::AuditingStart => HandshakePhaseView::AuditingStart,
            HandshakePhase::Uploading => HandshakePhaseView::Uploading,
            HandshakePhase::MarkingUploaded => HandshakePhaseView::MarkingUploaded,
            HandshakePhase::AwaitingReceived => HandshakePhaseView::AwaitingReceived,
            HandshakePhase::MarkingExecuting => HandshakePhaseView::MarkingExecuting,
            HandshakePhase::EvaluatingGate { pos } => HandshakePhaseView::EvaluatingGate {
                pos: *pos as int,
            },
            HandshakePhase::RecordingGate { pos, gate } => HandshakePhaseView::RecordingGate {
                pos: *pos as int,
                gate: gate@,
            },
            HandshakePhase::SendingProceed { pos } => HandshakePhaseView::SendingProceed {
                pos: *pos as int,
            },
            HandshakePhase::SendingHold { pos } => HandshakePhaseView::SendingHold {
                pos: *pos as int,
            },
            HandshakePhase::AwaitingOperator { pos } => HandshakePhaseView::AwaitingOperator {
                pos: *pos as int,
            },
            HandshakePhase::SendingConflictHold { with } =>
                HandshakePhaseView::SendingConflictHold { with: with@ },
            HandshakePhase::SendingAbort { reason } => HandshakePhaseView::SendingAbort {
                reason: reason@,
            },
            HandshakePhase::MarkingAborted { reason } => HandshakePhaseView::MarkingAborted {
                reason: reason@,
            },
            HandshakePhase::MarkingRunning { pos } => HandshakePhaseView::MarkingRunning {
                pos: *pos as int,
            },
            HandshakePhase::AwaitingStep { pos } => HandshakePhaseView::AwaitingStep {
                pos: *pos as int,
            },
            HandshakePhase::RecordingComplete { pos } => HandshakePhaseView::RecordingComplete {
                pos: *pos as int,
            },
            HandshakePhase::AwaitingSortieComplete => HandshakePhaseView::AwaitingSortieComplete,
            HandshakePhase::MarkingComplete => HandshakePhaseView::MarkingComplete,
            HandshakePhase::AuditingComplete => HandshakePhaseView::AuditingComplete,
            HandshakePhase::Finished { ok } => HandshakePhaseView::Finished { ok: *ok },
        }
    }
}

/// The handshake of one sortie: its id, the indices of its steps in
/// order, and the current phase.
#[derive(Debug)]
pub struct Handshake {
    pub sortie_id: String,
    pub steps: Vec<u32>,
    pub phase: HandshakePhase,
}

pub struct HandshakeView {
    pub sortie_id: Seq<char>,
    pub steps: Seq<u32>,
    pub phase: HandshakePhaseView,
}

impl View for Handshake {
    type V = HandshakeView;

    open spec fn view(&self) -> HandshakeView {
        HandshakeView { sortie_id: self.sortie_id@, steps: self.steps@, phase: self.phase@ }
    }
}

/// Every step position the phase names lies within the step list.
pub open spec fn phase_in_bounds(p: HandshakePhaseView, n: nat) -> bool {
    match p {
        HandshakePhaseView::EvaluatingGate { pos } => 0 <= pos < n,
        HandshakePhaseView::RecordingGate { pos, .. } => 0 <= pos < n,
        HandshakePhaseView::SendingProceed { pos } => 0 <= pos < n,
        HandshakePhaseView::SendingHold { pos } => 0 <= pos < n,
        HandshakePhaseView::AwaitingOperator { pos } => 0 <= pos < n,
        HandshakePhaseView::MarkingRunning { pos } => 0 <= pos < n,
        HandshakePhaseView::AwaitingStep { pos } => 0 <= pos < n,
        HandshakePhaseView::RecordingComplete { pos } => 0 <= pos < n,
        _ => true,
    }
}

impl HandshakeView {
    /// Positions held by the phase name an existing step.
    pub open spec fn wf(self) -> bool {
        phase_in_bounds(self.phase, self.steps.len())
    }

    /// The same handshake in another phase.
    pub open spec fn with_phase(self, phase: HandshakePhaseView) -> HandshakeView {
        HandshakeView { phase, ..self }
    }
}

/// The recorded decision for a gate.
pub open spec fn gate_decision(g: GateView) -> GateDecision {
    match g {
        GateView::AutoProceed => GateDecision::AutoProceed,
        GateView::OperatorRequired { .. } => GateDecision::OperatorRequired,
        GateView::FleetConflict { .. } => GateDecision::FleetConflict,
        GateView::AbortSortie { .. } => GateDecision::AbortSortie,
    }
}

/// The reason recorded with a gate decision.
pub open spec fn gate_reason(g: GateView) -> Option<Seq<char>> {
    match g {
        GateView::AutoProceed => None,
        GateView::OperatorRequired { reason } => Some(reason),
        GateView::FleetConflict { with } => Some(with),
        GateView::AbortSortie { reason } => Some(reason),
    }
}

/// End the handshake with an error.
pub open spec fn fail_with(s: HandshakeView, e: HandshakeErrorView) -> (
    HandshakeView,
    HandshakeActionView,
) {
    (s.with_phase(HandshakePhaseView::Finished { ok: false }), HandshakeActionView::Finish(Err(e)))
}

/// Move on to the step at position `pos`, or to the final acknowledgement
/// once every step is done.
pub open spec fn begin_step(s: HandshakeView, pos: int) -> (HandshakeView, HandshakeActionView) {
    if pos < s.steps.len() {
        (
            s.with_phase(HandshakePhaseView::EvaluatingGate { pos }),
            HandshakeActionView::EvaluateGate { pos },
        )
    } else {
        (
            s.with_phase(HandshakePhaseView::AwaitingSortieComplete),
            HandshakeActionView::AwaitSortieComplete,
        )
    }
}

/// Settle a wait on legion's event stream.
pub open spec fn settle_wait(
    s: HandshakeView,
    outcome: Option<Result<(), HandshakeErrorView>>,
    keep_waiting: HandshakeActionView,
    next: (HandshakeView, HandshakeActionView),
) -> (HandshakeView, HandshakeActionView) {
    match outcome {
        None => (s, keep_waiting),
        Some(Ok(())) => next,
        Some(Err(e)) => fail_with(s, e),
    }
}

/// The end of a wait on legion's event stream for a reason other than a frame.
pub open spec fn wait_interrupted(
    s: HandshakeView,
    e: HandshakeEventView,
    what: Seq<char>,
) -> Option<(HandshakeView, HandshakeActionView)> {
    match e {
        HandshakeEventView::EventsLagged(n) => Some(fail_with(s, HandshakeErrorView::EventLag(n))),
        HandshakeEventView::EventsClosed => Some(fail_with(s, HandshakeErrorView::EventClosed)),
        HandshakeEventView::TimedOut => Some(
            fail_with(s, HandshakeErrorView::Timeout { what }),
        ),
        _ => None,
    }
}

/// One transition of the handshake: the next state and the action to perform.
pub open spec fn handshake_step(s: HandshakeView, e: HandshakeEventView) -> (
    HandshakeView,
    HandshakeActionView,
) {
    let stay = (s, HandshakeActionView::Noop);
    match s.phase {
        HandshakePhaseView::Ready => match e {
            HandshakeEventView::Start => (
                s.with_phase(HandshakePhaseView::AuditingStart),
                HandshakeActionView::AuditDispatchStart,
            ),
            _ => stay,
        },
        HandshakePhaseView::AuditingStart => match e {
            HandshakeEventView::Done | HandshakeEventView::DbFailed(_) => (
                s.with_phase(HandshakePhaseView::Uploading),
                HandshakeActionView::UploadSortie,
            ),
            _ => stay,
        },
        HandshakePhaseView::Uploading => match e {
            HandshakeEventView::Done => (
                s.with_phase(HandshakePhaseView::MarkingUploaded),
                HandshakeActionView::SetSortieStatus { status: SortieStatus::Uploaded, reason: None },
            ),
            HandshakeEventView::LinkFailed(l) => fail_with(s, HandshakeErrorView::Link(l)),
            _ => stay,
        },
        HandshakePhaseView::MarkingUploaded => match e {
            HandshakeEventView::Done => (
                s.with_phase(HandshakePhaseView::AwaitingReceived),
                HandshakeActionView::AwaitSortieReceived,
            ),
            HandshakeEventView::DbFailed(d) => fail_with(s, HandshakeErrorView::Db(d)),
            _ => stay,
        },
        HandshakePhaseView::AwaitingReceived => match e {
            HandshakeEventView::Legion(m) => settle_wait(
                s,
                received_outcome(m, s.sortie_id),
                HandshakeActionView::AwaitSortieReceived,
                (
                    s.with_phase(HandshakePhaseView::MarkingExecuting),
                    HandshakeActionView::SetSortieStatus {
                        status: SortieStatus::Executing,
                        reason: None,
                    },
                ),
            ),
            _ => match wait_interrupted(s, e, "sortie_received"@) {
                Some(r) => r,
                None => stay,
            },
        },
        HandshakePhaseView::MarkingExecuting => match e {
            HandshakeEventView::Done => begin_step(s, 0),
            HandshakeEventView::DbFailed(d) => fail_with(s, HandshakeErrorView::Db(d)),
            _ => stay,
        },
        HandshakePhaseView::EvaluatingGate { pos } => match e {
            HandshakeEventView::GateDecided(g) => (
                s.with_phase(HandshakePhaseView::RecordingGate { pos, gate: g }),
                HandshakeActionView::RecordStepGated {
                    step_index: s.steps[pos],
                    decision: gate_decision(g),
                    reason: gate_reason(g),
                },
            ),
            _ => stay,
        },
        HandshakePhaseView::RecordingGate { pos, gate } => match e {
            HandshakeEventView::Done => match gate {
                GateView::AutoProceed => (
                    s.with_phase(HandshakePhaseView::SendingProceed { pos }),
                    HandshakeActionView::SendProceed { step_index: s.steps[pos] },
                ),
                GateView::OperatorRequired { reason } => (
                    s.with_phase(HandshakePhaseView::SendingHold { pos }),
                    HandshakeActionView::SendHold { reason },
                ),
                GateView::FleetConflict { with } => (
                    s.with_phase(HandshakePhaseView::SendingConflictHold { with }),
                    HandshakeActionView::SendHold { reason: "fleet_conflict:"@ + with },
                ),
                GateView::AbortSortie { reason } => (
                    s.with_phase(HandshakePhaseView::SendingAbort { reason }),
                    HandshakeActionView::SendAbort { reason },
                ),
            },
            HandshakeEventView::DbFailed(d) => fail_with(s, HandshakeErrorView::Db(d)),
            _ => stay,
        },
        HandshakePhaseView::SendingProceed { pos } => match e {
            HandshakeEventView::Done => (
                s.with_phase(HandshakePhaseView::MarkingRunning { pos }),
                HandshakeActionView::RecordStepRunning { step_index: s.steps[pos] },
            ),
            HandshakeEventView::LinkFailed(l) => fail_with(s, HandshakeErrorView::Link(l)),
            _ => stay,
        },
        HandshakePhaseView::SendingHold { pos } => match e {
            HandshakeEventView::Done => (
                s.with_phase(HandshakePhaseView::AwaitingOperator { pos }),
                HandshakeActionView::AwaitOperatorDecision { step_index: s.steps[pos] },
            ),
            HandshakeEventView::LinkFailed(l) => fail_with(s, HandshakeErrorView::Link(l)),
            _ => stay,
        },
        HandshakePhaseView::AwaitingOperator { pos } => match e {
            HandshakeEventView::Operator { sortie_id, step_index } => if sortie_id == s.sortie_id
                && step_index == s.steps[pos] {
                (
                    s.with_phase(HandshakePhaseView::SendingProceed { pos }),
                    HandshakeActionView::SendProceed { step_index: s.steps[pos] },
                )
            } else {
                (s, HandshakeActionView::AwaitOperatorDecision { step_index: s.steps[pos] })
            },
            HandshakeEventView::OperatorLagged => (
                s,
                HandshakeActionView::AwaitOperatorDecision { step_index: s.steps[pos] },
            ),
            HandshakeEventView::OperatorClosed => fail_with(
                s,
                HandshakeErrorView::OperatorAborted { reason: "operator channel closed"@ },
            ),
            HandshakeEventView::NoOperatorChannel => fail_with(
                s,
                HandshakeErrorView::OperatorAborted {
                    reason: "operator gate hit but no operator channel attached"@,
                },
            ),
            HandshakeEventView::TimedOut => fail_with(
                s,
                HandshakeErrorView::Timeout { what: "operator_decision"@ },
            ),
            _ => stay,
        },
        HandshakePhaseView::SendingConflictHold { with } => match e {
            HandshakeEventView::Done => fail_with(
                s,
                HandshakeErrorView::OperatorAborted {
                    reason: "fleet conflict with "@ + with + " (v1 has no resolver)"@,
                },
            ),
            HandshakeEventView::LinkFailed(l) => fail_with(s, HandshakeErrorView::Link(l)),
            _ => stay,
        },
        HandshakePhaseView::SendingAbort { reason } => match e {
            HandshakeEventView::Done => (
                s.with_phase(HandshakePhaseView::MarkingAborted { reason }),
                HandshakeActionView::SetSortieStatus {
                    status: SortieStatus::Aborted,
                    reason: Some(reason),
                },
            ),
            HandshakeEventView::LinkFailed(l) => fail_with(s, HandshakeErrorView::Link(l)),
            _ => stay,
        },
        HandshakePhaseView::MarkingAborted { reason } => match e {
            HandshakeEventView::Done => fail_with(
                s,
                HandshakeErrorView::OperatorAborted { reason },
            ),
            HandshakeEventView::DbFailed(d) => fail_with(s, HandshakeErrorView::Db(d)),
            _ => stay,
        },
        HandshakePhaseView::MarkingRunning { pos } => match e {
            HandshakeEventView::Done => (
                s.with_phase(HandshakePhaseView::AwaitingStep { pos }),
                HandshakeActionView::AwaitStepComplete { step_index: s.steps[pos] },
            ),
            HandshakeEventView::DbFailed(d) => fail_with(s, HandshakeErrorView::Db(d)),
            _ => stay,
        },
        HandshakePhaseView::AwaitingStep { pos } => match e {
            HandshakeEventView::Legion(m) => settle_wait(
                s,
                step_outcome(m, s.sortie_id, s.steps[pos]),
                HandshakeActionView::AwaitStepComplete { step_index: s.steps[pos] },
                (
                    s.with_phase(HandshakePhaseView::RecordingComplete { pos }),
                    HandshakeActionView::RecordStepComplete { step_index: s.steps[pos] },
                ),
            ),
            _ => match wait_interrupted(s, e, "step_complete"@) {
                Some(r) => r,
                None => stay,
            },
        },
        HandshakePhaseView::RecordingComplete { pos } => match e {
            HandshakeEventView::Done => begin_step(s, pos + 1),
            HandshakeEventView::DbFailed(d) => fail_with(s, HandshakeErrorView::Db(d)),
            _ => stay,
        },
        HandshakePhaseView::AwaitingSortieComplete => match e {
            HandshakeEventView::Legion(m) => settle_wait(
                s,
                completion_outcome(m, s.sortie_id),
                HandshakeActionView::AwaitSortieComplete,
                (
                    s.with_phase(HandshakePhaseView::MarkingComplete),
                    HandshakeActionView::SetSortieStatus {
                        status: SortieStatus::Complete,
                        reason: None,
                    },
                ),
            ),
            _ => match wait_interrupted(s, e, "sortie_complete"@) {
                Some(r) => r,
                None => stay,
            },
        },
        HandshakePhaseView::MarkingComplete => match e {
            HandshakeEventView::Done => (
                s.with_phase(HandshakePhaseView::AuditingComplete),
                HandshakeActionView::AuditSortieComplete,
            ),
            HandshakeEventView::DbFailed(d) => fail_with(s, HandshakeErrorView::Db(d)),
            _ => stay,
        },
        HandshakePhaseView::AuditingComplete => match e {
            HandshakeEventView::Done | HandshakeEventView::DbFailed(_) => (
                s.with_phase(HandshakePhaseView::Finished { ok: true }),
                HandshakeActionView::Finish(Ok(())),
            ),
            _ => stay,
        },
        HandshakePhaseView::Finished { .. } => stay,
    }
}

impl HandshakeAction {
    /// How long the driver may wait for the outcome of this action: 10 s
    /// for legion's upload and completion acknowledgements, 600 s for a
    /// step, and the configured operator gate timeout for an operator
    /// decision; the other actions do not wait.
    pub fn timeout_s(&self, operator_gate_timeout_s: u32) -> (r: Option<u64>)
        ensures
            r == match self@ {
                HandshakeActionView::AwaitSortieReceived => Some(10u64),
                HandshakeActionView::AwaitStepComplete { .. } => Some(600u64),
                HandshakeActionView::AwaitSortieComplete => Some(10u64),
                HandshakeActionView::AwaitOperatorDecision { .. } => Some(
                    operator_gate_timeout_s as u64,
                ),
                _ => None::<u64>,
            },
    {
        match self {
            HandshakeAction::AwaitSortieReceived => Some(10),
            HandshakeAction::AwaitStepComplete { .. } => Some(600),
            HandshakeAction::AwaitSortieComplete => Some(10),
            HandshakeAction::AwaitOperatorDecision { .. } => Some(operator_gate_timeout_s as u64),
            _ => None,
        }
    }
}

impl Handshake {
    /// A handshake ready to drive `sortie` through its steps.
    pub fn for_sortie<W>(sortie: &Sortie<W>) -> (r: Handshake)
        ensures
            r@.sortie_id == sortie.sortie_id@,
            r@.steps.len() == sortie.steps@.len(),
            forall|i: int| 0 <= i < r@.steps.len() ==> r@.steps[i] == sortie.steps@[i].index,
            r@.phase == HandshakePhaseView::Ready,
            r@.wf(),
    {
        let mut steps: Vec<u32> = Vec::new();
        let n = sortie.steps.len();
        for i in 0..n
            invariant
                n == sortie.steps@.len(),
                steps@.len() == i,
                forall|j: int| 0 <= j < i ==> steps@[j] == sortie.steps@[j].index,
        {
            steps.push(sortie.steps[i].index);
        }
        Handshake { sortie_id: sortie.sortie_id.clone(), steps, phase: HandshakePhase::Ready }
    }

    fn finish(sortie_id: String, steps: Vec<u32>, e: HandshakeError) -> (r: (
        Handshake,
        HandshakeAction,
    ))
        ensures
            (r.0@, r.1@) == fail_with(
                HandshakeView { sortie_id: sortie_id@, steps: steps@, phase: r.0@.phase },
                e@,
            ),
            r.0@.sortie_id == sortie_id@,
            r.0@.steps == steps@,
    {
        (
            Handshake { sortie_id, steps, phase: HandshakePhase::Finished { ok: false } },
            HandshakeAction::Finish(Err(e)),
        )
    }

    fn begin(sortie_id: String, steps: Vec<u32>, pos: usize) -> (r: (Handshake, HandshakeAction))
        ensures
            (r.0@, r.1@) == begin_step(
                HandshakeView {
                    sortie_id: sortie_id@,
                    steps: steps@,
                    phase: HandshakePhaseView::Ready,
                },
                pos as int,
            ),
    {
        if pos < steps.len() {
            (
                Handshake { sortie_id, steps, phase: HandshakePhase::EvaluatingGate { pos } },
                HandshakeAction::EvaluateGate { pos },
            )
        } else {
            (
                Handshake { sortie_id, steps, phase: HandshakePhase::AwaitingSortieComplete },
                HandshakeAction::AwaitSortieComplete,
            )
        }
    }

    /// Feed the outcome of the last action (or a received input) to the
    /// handshake; returns the new state and the next action to perform.
    #[verifier::rlimit(60)]
    pub fn next(self, event: HandshakeEvent) -> (r: (Handshake, HandshakeAction))
        requires
            self@.wf(),
        ensures
            (r.0@, r.1@) == handshake_step(self@, event@),
            r.0@.wf(),
    {
        let ghost s = self@;
        let ghost ev = event@;
        let Handshake { sortie_id, steps, phase } = self;
        match phase {
            HandshakePhase::Ready => match event {
                HandshakeEvent::Start => (
                    Handshake { sortie_id, steps, phase: HandshakePhase::AuditingStart },
                    HandshakeAction::AuditDispatchStart,
                ),
                _ => (Handshake { sortie_id, steps, phase: HandshakePhase::Ready }, HandshakeAction::Noop),
            },
            HandshakePhase::AuditingStart => match event {
                HandshakeEvent::Done | HandshakeEvent::DbFailed(_) => (
                    Handshake { sortie_id, steps, phase: HandshakePhase::Uploading },
                    HandshakeAction::UploadSortie,
                ),
                _ => (
                    Handshake { sortie_id, steps, phase: HandshakePhase::AuditingStart },
                    HandshakeAction::Noop,
                ),
            },
            HandshakePhase::Uploading => match event {
                HandshakeEvent::Done => (
                    Handshake { sortie_id, steps, phase: HandshakePhase::MarkingUploaded },
                    HandshakeAction::SetSortieStatus { status: SortieStatus::Uploaded, reason: None },
                ),
                HandshakeEvent::LinkFailed(l) => Self::finish(sortie_id, steps, HandshakeError::Link(l)),
                _ => (Handshake { sortie_id, steps, phase: HandshakePhase::Uploading }, HandshakeAction::Noop),
            },
            HandshakePhase::MarkingUploaded => match event {
                HandshakeEvent::Done => (
                    Handshake { sortie_id, steps, phase: HandshakePhase::AwaitingReceived },
                    HandshakeAction::AwaitSortieReceived,
                ),
                HandshakeEvent::DbFailed(d) => Self::finish(sortie_id, steps, HandshakeError::Db(d)),
                _ => (
                    Handshake { sortie_id, steps, phase: HandshakePhase::MarkingUploaded },
                    HandshakeAction::Noop,
                ),
            },
            HandshakePhase::AwaitingReceived => match event {
                HandshakeEvent::Legion(m) => match wait_sortie_received(&m, &sortie_id) {
                    None => (
                        Handshake { sortie_id, steps, phase: HandshakePhase::AwaitingReceived },
                        HandshakeAction::AwaitSortieReceived,
                    ),
                    Some(Ok(())) => (
                        Handshake { sortie_id, steps, phase: HandshakePhase::MarkingExecuting },
                        HandshakeAction::SetSortieStatus {
                            status: SortieStatus::Executing,
                            reason: None,
                        },
                    ),
                    Some(Err(e)) => Self::finish(sortie_id, steps, e),
                },
                HandshakeEvent::EventsLagged(n) => Self::finish(sortie_id, steps, HandshakeError::EventLag(n)),
                HandshakeEvent::EventsClosed => Self::finish(sortie_id, steps, HandshakeError::EventClosed),
                HandshakeEvent::TimedOut => Self::finish(
                    sortie_id,
                    steps,
                    HandshakeError::Timeout { what: "sortie_received" },
                ),
                _ => (
                    Handshake { sortie_id, steps, phase: HandshakePhase::AwaitingReceived },
                    HandshakeAction::Noop,
                ),
            },
            HandshakePhase::MarkingExecuting => match event {
                HandshakeEvent::Done => Self::begin(sortie_id, steps, 0),
                HandshakeEvent::DbFailed(d) => Self::finish(sortie_id, steps, HandshakeError::Db(d)),
                _ => (
                    Handshake { sortie_id, steps, phase: HandshakePhase::MarkingExecuting },
                    HandshakeAction::Noop,
                ),
            },
            HandshakePhase::EvaluatingGate { pos } => match event {
                HandshakeEvent::GateDecided(g) => {
                    let step_index = steps[pos];
                    let (decision, reason) = match &g {
                        Gate::AutoProceed => (GateDecision::AutoProceed, None),
                        Gate::OperatorRequired { reason } => (
                            GateDecision::OperatorRequired,
                            Some(reason.clone()),
                        ),
                        Gate::FleetConflict { with } => (GateDecision::FleetConflict, Some(with.clone())),
                        Gate::AbortSortie { reason } => (GateDecision::AbortSortie, Some(reason.clone())),
                    };
                    (
                        Handshake { sortie_id, steps, phase: HandshakePhase::RecordingGate { pos, gate: g } },
                        HandshakeAction::RecordStepGated { step_index, decision, reason },
                    )
                },
                _ => (
                    Handshake { sortie_id, steps, phase: HandshakePhase::EvaluatingGate { pos } },
                    HandshakeAction::Noop,
                ),
            },
            HandshakePhase::RecordingGate { pos, gate } => match event {
                HandshakeEvent::Done => match gate {
                    Gate::AutoProceed => {
                        let step_index = steps[pos];
                        (
                            Handshake { sortie_id, steps, phase: HandshakePhase::SendingProceed { pos } },
                            HandshakeAction::SendProceed { step_index },
                        )
                    },
                    Gate::OperatorRequired { reason } => (
                        Handshake { sortie_id, steps, phase: HandshakePhase::SendingHold { pos } },
                        HandshakeAction::SendHold { reason },
                    ),
                    Gate::FleetConflict { with } => {
                        let reason = joined("fleet_conflict:", with.as_str());
                        (
                            Handshake { sortie_id, steps, phase: HandshakePhase::SendingConflictHold { with } },
                            HandshakeAction::SendHold { reason },
                        )
                    },
                    Gate::AbortSortie { reason } => {
                        let sent = reason.clone();
                        (
                            Handshake { sortie_id, steps, phase: HandshakePhase::SendingAbort { reason } },
                            HandshakeAction::SendAbort { reason: sent },
                        )
                    },
                },
                HandshakeEvent::DbFailed(d) => Self::finish(sortie_id, steps, HandshakeError::Db(d)),
                _ => (
                    Handshake { sortie_id, steps, phase: HandshakePhase::RecordingGate { pos, gate } },
                    HandshakeAction::Noop,
                ),
            },
            HandshakePhase::SendingProceed { pos } => match event {
                HandshakeEvent::Done => {
                    let step_index = steps[pos];
                    (
                        Handshake { sortie_id, steps, phase: HandshakePhase::MarkingRunning { pos } },
                        HandshakeAction::RecordStepRunning { step_index },
                    )
                },
                HandshakeEvent::LinkFailed(l) => Self::finish(sortie_id, steps, HandshakeError::Link(l)),
                _ => (
                    Handshake { sortie_id, steps, phase: HandshakePhase::SendingProceed { pos } },
                    HandshakeAction::Noop,
                ),
            },
            HandshakePhase::SendingHold { pos } => match event {
                HandshakeEvent::Done => {
                    let step_index = steps[pos];
                    (
                        Handshake { sortie_id, steps, phase: HandshakePhase::AwaitingOperator { pos } },
                        HandshakeAction::AwaitOperatorDecision { step_index },
                    )
                },
                HandshakeEvent::LinkFailed(l) => Self::finish(sortie_id, steps, HandshakeError::Link(l)),
                _ => (
                    Handshake { sortie_id, steps, phase: HandshakePhase::SendingHold { pos } },
                    HandshakeAction::Noop,
                ),
            },
            HandshakePhase::AwaitingOperator { pos } => match event {
                HandshakeEvent::Operator { sortie_id: sid, step_index } => {
                    let expected = steps[pos];
                    if sid == sortie_id && step_index == expected {
                        (
                            Handshake { sortie_id, steps, phase: HandshakePhase::SendingProceed { pos } },
                            HandshakeAction::SendProceed { step_index: expected },
                        )
                    } else {
                        (
                            Handshake { sortie_id, steps, phase: HandshakePhase::AwaitingOperator { pos } },
                            HandshakeAction::AwaitOperatorDecision { step_index: expected },
                        )
                    }
                },
                HandshakeEvent::OperatorLagged => {
                    let expected = steps[pos];
                    (
                        Handshake { sortie_id, steps, phase: HandshakePhase::AwaitingOperator { pos } },
                        HandshakeAction::AwaitOperatorDecision { step_index: expected },
                    )
                },
                HandshakeEvent::OperatorClosed => Self::finish(
                    sortie_id,
                    steps,
                    HandshakeError::OperatorAborted { reason: owned("operator channel closed") },
                ),
                HandshakeEvent::NoOperatorChannel => Self::finish(
                    sortie_id,
                    steps,
                    HandshakeError::OperatorAborted {
                        reason: owned("operator gate hit but no operator channel attached"),
                    },
                ),
                HandshakeEvent::TimedOut => Self::finish(
                    sortie_id,
                    steps,
                    HandshakeError::Timeout { what: "operator_decision" },
                ),
                _ => (
                    Handshake { sortie_id, steps, phase: HandshakePhase::AwaitingOperator { pos } },
                    HandshakeAction::Noop,
                ),
            },
            HandshakePhase::SendingConflictHold { with } => match event {
                HandshakeEvent::Done => {
                    let mut reason = joined("fleet conflict with ", with.as_str());
                    reason.append(" (v1 has no resolver)");
                    Self::finish(sortie_id, steps, HandshakeError::OperatorAborted { reason })
                },
                HandshakeEvent::LinkFailed(l) => Self::finish(sortie_id, steps, HandshakeError::Link(l)),
                _ => (
                    Handshake { sortie_id, steps, phase: HandshakePhase::SendingConflictHold { with } },
                    HandshakeAction::Noop,
                ),
            },
            HandshakePhase::SendingAbort { reason } => match event {
                HandshakeEvent::Done => {
                    let recorded = reason.clone();
                    (
                        Handshake { sortie_id, steps, phase: HandshakePhase::MarkingAborted { reason } },
                        HandshakeAction::SetSortieStatus {
                            status: SortieStatus::Aborted,
                            reason: Some(recorded),
                        },
                    )
                },
                HandshakeEvent::LinkFailed(l) => Self::finish(sortie_id, steps, HandshakeError::Link(l)),
                _ => (
                    Handshake { sortie_id, steps, phase: HandshakePhase::SendingAbort { reason } },
                    HandshakeAction::Noop,
                ),
            },
            HandshakePhase::MarkingAborted { reason } => match event {
                HandshakeEvent::Done => Self::finish(
                    sortie_id,
                    steps,
                    HandshakeError::OperatorAborted { reason },
                ),
                HandshakeEvent::DbFailed(d) => Self::finish(sortie_id, steps, HandshakeError::Db(d)),
                _ => (
                    Handshake { sortie_id, steps, phase: HandshakePhase::MarkingAborted { reason } },
                    HandshakeAction::Noop,
                ),
            },
            HandshakePhase::MarkingRunning { pos } => match event {
                HandshakeEvent::Done => {
                    let step_index = steps[pos];
                    (
                        Handshake { sortie_id, steps, phase: HandshakePhase::AwaitingStep { pos } },
                        HandshakeAction::AwaitStepComplete { step_index },
                    )
                },
                HandshakeEvent::DbFailed(d) => Self::finish(sortie_id, steps, HandshakeError::Db(d)),
                _ => (
                    Handshake { sortie_id, steps, phase: HandshakePhase::MarkingRunning { pos } },
                    HandshakeAction::Noop,
                ),
            },
            HandshakePhase::AwaitingStep { pos } => {
                let step_index = steps[pos];
                match event {
                    HandshakeEvent::Legion(m) => match wait_step_complete(&m, &sortie_id, step_index) {
                        None => (
                            Handshake { sortie_id, steps, phase: HandshakePhase::AwaitingStep { pos } },
                            HandshakeAction::AwaitStepComplete { step_index },
                        ),
                        Some(Ok(())) => (
                            Handshake { sortie_id, steps, phase: HandshakePhase::RecordingComplete { pos } },
                            HandshakeAction::RecordStepComplete { step_index },
                        ),
                        Some(Err(e)) => Self::finish(sortie_id, steps, e),
                    },
                    HandshakeEvent::EventsLagged(n) => Self::finish(sortie_id, steps, HandshakeError::EventLag(n)),
                    HandshakeEvent::EventsClosed => Self::finish(sortie_id, steps, HandshakeError::EventClosed),
                    HandshakeEvent::TimedOut => Self::finish(
                        sortie_id,
                        steps,
                        HandshakeError::Timeout { what: "step_complete" },
                    ),
                    _ => (
                        Handshake { sortie_id, steps, phase: HandshakePhase::AwaitingStep { pos } },
                        HandshakeAction::Noop,
                    ),
                }
            },
            HandshakePhase::RecordingComplete { pos } => match event {
                HandshakeEvent::Done => {
                    let n = steps.len();
                    assert(pos < n);
                    Self::begin(sortie_id, steps, pos + 1)
                },
                HandshakeEvent::DbFailed(d) => Self::finish(sortie_id, steps, HandshakeError::Db(d)),
                _ => (
                    Handshake { sortie_id, steps, phase: HandshakePhase::RecordingComplete { pos } },
                    HandshakeAction::Noop,
                ),
            },
            HandshakePhase::AwaitingSortieComplete => match event {
                HandshakeEvent::Legion(m) => match wait_sortie_complete(&m, &sortie_id) {
                    None => (
                        Handshake { sortie_id, steps, phase: HandshakePhase::AwaitingSortieComplete },
                        HandshakeAction::AwaitSortieComplete,
                    ),
                    Some(Ok(())) => (
                        Handshake { sortie_id, steps, phase: HandshakePhase::MarkingComplete },
                        HandshakeAction::SetSortieStatus {
                            status: SortieStatus::Complete,
                            reason: None,
                        },
                    ),
                    Some(Err(e)) => Self::finish(sortie_id, steps, e),
                },
                HandshakeEvent::EventsLagged(n) => Self::finish(sortie_id, steps, HandshakeError::EventLag(n)),
                HandshakeEvent::EventsClosed => Self::finish(sortie_id, steps, HandshakeError::EventClosed),
                HandshakeEvent::TimedOut => Self::finish(
                    sortie_id,
                    steps,
                    HandshakeError::Timeout { what: "sortie_complete" },
                ),
                _ => (
                    Handshake { sortie_id, steps, phase: HandshakePhase::AwaitingSortieComplete },
                    HandshakeAction::Noop,
                ),
            },
            HandshakePhase::MarkingComplete => match event {
                HandshakeEvent::Done => (
                    Handshake { sortie_id, steps, phase: HandshakePhase::AuditingComplete },
                    HandshakeAction::AuditSortieComplete,
                ),
                HandshakeEvent::DbFailed(d) => Self::finish(sortie_id, steps, HandshakeError::Db(d)),
                _ => (
                    Handshake { sortie_id, steps, phase: HandshakePhase::MarkingComplete },
                    HandshakeAction::Noop,
                ),
            },
            HandshakePhase::AuditingComplete => match event {
                HandshakeEvent::Done | HandshakeEvent::DbFailed(_) => (
                    Handshake { sortie_id, steps, phase: HandshakePhase::Finished { ok: true } },
                    HandshakeAction::Finish(Ok(())),
                ),
                _ => (
                    Handshake { sortie_id, steps, phase: HandshakePhase::AuditingComplete },
                    HandshakeAction::Noop,
                ),
            },
            HandshakePhase::Finished { ok } => (
                Handshake { sortie_id, steps, phase: HandshakePhase::Finished { ok } },
                HandshakeAction::Noop,
            ),
        }
    }
}

} // verus!
