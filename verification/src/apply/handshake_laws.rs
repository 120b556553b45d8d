//! Laws of the step-confirmation handshake.

use vstd::prelude::*;

use crate::apply::gate::GateView;
use crate::apply::handshake::{
    begin_step, handshake_step, HandshakeActionView, HandshakeErrorView, HandshakeEventView,
    HandshakePhaseView, HandshakeView,
};
use crate::protocol::LegionReplyView;
use crate::store::sorties::SortieStatus;
use crate::store::steps::GateDecision;

verus! {

/// Legion is told to proceed with a step only right after that step's
/// gate decision was recorded as `AutoProceed`, or right after the operator
/// answered for exactly that sortie and step.
pub proof fn lemma_proceed_requires_clearance(s: HandshakeView, e: HandshakeEventView)
    requires
        s.wf(),
    ensures
        ({
            let a = handshake_step(s, e).1;
            a is SendProceed ==> match s.phase {
                HandshakePhaseView::RecordingGate { pos, gate } => gate is AutoProceed && e is Done
                    && a->SendProceed_step_index == s.steps[pos],
                HandshakePhaseView::AwaitingOperator { pos } => e == (HandshakeEventView::Operator {
                    sortie_id: s.sortie_id,
                    step_index: s.steps[pos],
                }) && a->SendProceed_step_index == s.steps[pos],
                _ => false,
            }
        }),
{
}

/// A step's completion is recorded only when legion reported it: the
/// handshake was waiting on that step and the event is a `StepComplete`
/// frame carrying this sortie's id and that step's index.
pub proof fn lemma_completion_needs_report(s: HandshakeView, e: HandshakeEventView)
    requires
        s.wf(),
    ensures
        ({
            let a = handshake_step(s, e).1;
            a is RecordStepComplete ==> match s.phase {
                HandshakePhaseView::AwaitingStep { pos } => e == HandshakeEventView::Legion(
                    LegionReplyView::StepComplete {
                        sortie_id: s.sortie_id,
                        step_index: s.steps[pos],
                    },
                ) && a->RecordStepComplete_step_index == s.steps[pos],
                _ => false,
            }
        }),
{
}

/// While a step runs, the handshake reacts to each input as follows. The
/// step's own `StepComplete` moves on to recording its completion. A
/// `SortieFailed` of this sortie fails the handshake with legion's step and
/// reason; any safety event aborts it with legion's kind and action; a
/// timeout fails it as a `step_complete` timeout; a closed or lagging event
/// stream fails it too. Any other frame (another sortie's or another step's
/// report, a receipt, an error frame) keeps it waiting on the same step, and
/// any other event changes nothing.
pub proof fn lemma_step_wait_reactions(s: HandshakeView, e: HandshakeEventView, pos: int)
    requires
        s.wf(),
        s.phase == (HandshakePhaseView::AwaitingStep { pos }),
    ensures
        ({
            let r = handshake_step(s, e);
            let failed = s.with_phase(HandshakePhaseView::Finished { ok: false });
            let waiting = (s, HandshakeActionView::AwaitStepComplete { step_index: s.steps[pos] });
            match e {
                HandshakeEventView::Legion(LegionReplyView::StepComplete { sortie_id, step_index }) =>
                    if sortie_id == s.sortie_id && step_index == s.steps[pos] {
                    r == (
                        s.with_phase(HandshakePhaseView::RecordingComplete { pos }),
                        HandshakeActionView::RecordStepComplete { step_index: s.steps[pos] },
                    )
                } else {
                    r == waiting
                },
                HandshakeEventView::Legion(
                    LegionReplyView::SortieFailed { sortie_id, step_index, reason },
                ) => if sortie_id == s.sortie_id {
                    r == (
                        failed,
                        HandshakeActionView::Finish(
                            Err(HandshakeErrorView::SortieFailed { step_index, reason }),
                        ),
                    )
                } else {
                    r == waiting
                },
                HandshakeEventView::Legion(LegionReplyView::SafetyEvent { kind, action }) => r == (
                    failed,
                    HandshakeActionView::Finish(Err(HandshakeErrorView::SafetyAbort { kind, action })),
                ),
                HandshakeEventView::Legion(_) => r == waiting,
                HandshakeEventView::TimedOut => r == (
                    failed,
                    HandshakeActionView::Finish(
                        Err(HandshakeErrorView::Timeout { what: "step_complete"@ }),
                    ),
                ),
                HandshakeEventView::EventsClosed => r == (
                    failed,
                    HandshakeActionView::Finish(Err(HandshakeErrorView::EventClosed)),
                ),
                HandshakeEventView::EventsLagged(n) => r == (
                    failed,
                    HandshakeActionView::Finish(Err(HandshakeErrorView::EventLag(n))),
                ),
                _ => r == (s, HandshakeActionView::Noop),
            }
        }),
{
}

/// While the upload's receipt is awaited: this sortie's `SortieReceived`
/// moves on to marking the sortie executing; an error frame rejects the
/// upload with `code: message`; a timeout fails it as a `sortie_received`
/// timeout; a closed or lagging event stream fails it; any other frame keeps
/// it waiting, and any other event changes nothing.
pub proof fn lemma_receipt_wait_reactions(s: HandshakeView, e: HandshakeEventView)
    requires
        s.wf(),
        s.phase == HandshakePhaseView::AwaitingReceived,
    ensures
        ({
            let r = handshake_step(s, e);
            let failed = s.with_phase(HandshakePhaseView::Finished { ok: false });
            match e {
                HandshakeEventView::Legion(LegionReplyView::SortieReceived { sortie_id }) =>
                    if sortie_id == s.sortie_id {
                    r == (
                        s.with_phase(HandshakePhaseView::MarkingExecuting),
                        HandshakeActionView::SetSortieStatus {
                            status: SortieStatus::Executing,
                            reason: None,
                        },
                    )
                } else {
                    r == (s, HandshakeActionView::AwaitSortieReceived)
                },
                HandshakeEventView::Legion(LegionReplyView::Error { code, message }) => r == (
                    failed,
                    HandshakeActionView::Finish(
                        Err(HandshakeErrorView::SortieRejected { reason: code + ": "@ + message }),
                    ),
                ),
                HandshakeEventView::Legion(_) => r == (s, HandshakeActionView::AwaitSortieReceived),
                HandshakeEventView::TimedOut => r == (
                    failed,
                    HandshakeActionView::Finish(
                        Err(HandshakeErrorView::Timeout { what: "sortie_received"@ }),
                    ),
                ),
                HandshakeEventView::EventsClosed => r == (
                    failed,
                    HandshakeActionView::Finish(Err(HandshakeErrorView::EventClosed)),
                ),
                HandshakeEventView::EventsLagged(n) => r == (
                    failed,
                    HandshakeActionView::Finish(Err(HandshakeErrorView::EventLag(n))),
                ),
                _ => r == (s, HandshakeActionView::Noop),
            }
        }),
{
}

/// While the sortie's final acknowledgement is awaited: this sortie's
/// `SortieComplete` moves on to marking it complete; a timeout fails it as a
/// `sortie_complete` timeout; a closed or lagging event stream fails it; any
/// other frame keeps it waiting, and any other event changes nothing.
pub proof fn lemma_completion_wait_reactions(s: HandshakeView, e: HandshakeEventView)
    requires
        s.wf(),
        s.phase == HandshakePhaseView::AwaitingSortieComplete,
    ensures
        ({
            let r = handshake_step(s, e);
            let failed = s.with_phase(HandshakePhaseView::Finished { ok: false });
            match e {
                HandshakeEventView::Legion(LegionReplyView::SortieComplete { sortie_id }) =>
                    if sortie_id == s.sortie_id {
                    r == (
                        s.with_phase(HandshakePhaseView::MarkingComplete),
                        HandshakeActionView::SetSortieStatus {
                            status: SortieStatus::Complete,
                            reason: None,
                        },
                    )
                } else {
                    r == (s, HandshakeActionView::AwaitSortieComplete)
                },
                HandshakeEventView::Legion(_) => r == (s, HandshakeActionView::AwaitSortieComplete),
                HandshakeEventView::TimedOut => r == (
                    failed,
                    HandshakeActionView::Finish(
                        Err(HandshakeErrorView::Timeout { what: "sortie_complete"@ }),
                    ),
                ),
                HandshakeEventView::EventsClosed => r == (
                    failed,
                    HandshakeActionView::Finish(Err(HandshakeErrorView::EventClosed)),
                ),
                HandshakeEventView::EventsLagged(n) => r == (
                    failed,
                    HandshakeActionView::Finish(Err(HandshakeErrorView::EventLag(n))),
                ),
                _ => r == (s, HandshakeActionView::Noop),
            }
        }),
{
}

/// While an operator decision is awaited: the operator's signal for this
/// sortie and step sends the proceed; a signal about anything else, or lost
/// signals, keep it waiting; a closed channel, a missing channel or a
/// timeout (`operator_decision`) abort the sortie; any other event changes
/// nothing.
pub proof fn lemma_operator_wait_reactions(s: HandshakeView, e: HandshakeEventView, pos: int)
    requires
        s.wf(),
        s.phase == (HandshakePhaseView::AwaitingOperator { pos }),
    ensures
        ({
            let r = handshake_step(s, e);
            let failed = s.with_phase(HandshakePhaseView::Finished { ok: false });
            let waiting = (s, HandshakeActionView::AwaitOperatorDecision { step_index: s.steps[pos] });
            match e {
                HandshakeEventView::Operator { sortie_id, step_index } => if sortie_id
                    == s.sortie_id && step_index == s.steps[pos] {
                    r == (
                        s.with_phase(HandshakePhaseView::SendingProceed { pos }),
                        HandshakeActionView::SendProceed { step_index: s.steps[pos] },
                    )
                } else {
                    r == waiting
                },
                HandshakeEventView::OperatorLagged => r == waiting,
                HandshakeEventView::OperatorClosed => r == (
                    failed,
                    HandshakeActionView::Finish(
                        Err(HandshakeErrorView::OperatorAborted { reason: "operator channel closed"@ }),
                    ),
                ),
                HandshakeEventView::NoOperatorChannel => r == (
                    failed,
                    HandshakeActionView::Finish(
                        Err(
                            HandshakeErrorView::OperatorAborted {
                                reason: "operator gate hit but no operator channel attached"@,
                            },
                        ),
                    ),
                ),
                HandshakeEventView::TimedOut => r == (
                    failed,
                    HandshakeActionView::Finish(
                        Err(HandshakeErrorView::Timeout { what: "operator_decision"@ }),
                    ),
                ),
                _ => r == (s, HandshakeActionView::Noop),
            }
        }),
{
}

/// Once a gate decision is recorded, the decision alone chooses what legion
/// is told: `AutoProceed` proceeds with that step, `OperatorRequired` holds
/// with the operator's reason, `FleetConflict` holds with `fleet_conflict:`
/// and the other drone, `AbortSortie` aborts with its reason. A failed
/// write fails the handshake.
pub proof fn lemma_gate_reactions(s: HandshakeView, e: HandshakeEventView, pos: int, gate: GateView)
    requires
        s.wf(),
        s.phase == (HandshakePhaseView::RecordingGate { pos, gate }),
    ensures
        ({
            let r = handshake_step(s, e);
            match e {
                HandshakeEventView::Done => match gate {
                    GateView::AutoProceed => r.1 == (HandshakeActionView::SendProceed {
                        step_index: s.steps[pos],
                    }),
                    GateView::OperatorRequired { reason } => r.1 == (HandshakeActionView::SendHold {
                        reason,
                    }),
                    GateView::FleetConflict { with } => r.1 == (HandshakeActionView::SendHold {
                        reason: "fleet_conflict:"@ + with,
                    }),
                    GateView::AbortSortie { reason } => r.1 == (HandshakeActionView::SendAbort {
                        reason,
                    }),
                },
                HandshakeEventView::DbFailed(d) => r == (
                    s.with_phase(HandshakePhaseView::Finished { ok: false }),
                    HandshakeActionView::Finish(Err(HandshakeErrorView::Db(d))),
                ),
                _ => r == (s, HandshakeActionView::Noop),
            }
        }),
{
}

/// How each write, send and audit that succeeded moves the handshake on:
/// the upload is marked, then its receipt awaited; the executing mark leads
/// to the first step's gate; a sent proceed is marked running and the step
/// awaited; a recorded completion leads to the next step's gate, or to the
/// final acknowledgement after the last step; a sent hold waits for the
/// operator; a conflict hold ends the sortie as aborted by the operator; a
/// sent abort marks the sortie aborted with its reason, and then ends it;
/// the completion mark is audited and the audit ends the sortie in success.
pub proof fn lemma_handshake_progress(s: HandshakeView)
    requires
        s.wf(),
    ensures
        ({
            let r = handshake_step(s, HandshakeEventView::Done);
            let failed = s.with_phase(HandshakePhaseView::Finished { ok: false });
            match s.phase {
                HandshakePhaseView::AuditingStart => r.1 == HandshakeActionView::UploadSortie,
                HandshakePhaseView::Uploading => r.1 == (HandshakeActionView::SetSortieStatus {
                    status: SortieStatus::Uploaded,
                    reason: None,
                }),
                HandshakePhaseView::MarkingUploaded => r.1 == HandshakeActionView::AwaitSortieReceived,
                HandshakePhaseView::MarkingExecuting => if s.steps.len() > 0 {
                    r == (
                        s.with_phase(HandshakePhaseView::EvaluatingGate { pos: 0 }),
                        HandshakeActionView::EvaluateGate { pos: 0 },
                    )
                } else {
                    r.1 == HandshakeActionView::AwaitSortieComplete
                },
                HandshakePhaseView::SendingProceed { pos } => r == (
                    s.with_phase(HandshakePhaseView::MarkingRunning { pos }),
                    HandshakeActionView::RecordStepRunning { step_index: s.steps[pos] },
                ),
                HandshakePhaseView::MarkingRunning { pos } => r == (
                    s.with_phase(HandshakePhaseView::AwaitingStep { pos }),
                    HandshakeActionView::AwaitStepComplete { step_index: s.steps[pos] },
                ),
                HandshakePhaseView::RecordingComplete { pos } => if pos + 1 < s.steps.len() {
                    r == (
                        s.with_phase(HandshakePhaseView::EvaluatingGate { pos: pos + 1 }),
                        HandshakeActionView::EvaluateGate { pos: pos + 1 },
                    )
                } else {
                    r == (
                        s.with_phase(HandshakePhaseView::AwaitingSortieComplete),
                        HandshakeActionView::AwaitSortieComplete,
                    )
                },
                HandshakePhaseView::SendingHold { pos } => r == (
                    s.with_phase(HandshakePhaseView::AwaitingOperator { pos }),
                    HandshakeActionView::AwaitOperatorDecision { step_index: s.steps[pos] },
                ),
                HandshakePhaseView::SendingConflictHold { with } => r == (
                    failed,
                    HandshakeActionView::Finish(
                        Err(
                            HandshakeErrorView::OperatorAborted {
                                reason: "fleet conflict with "@ + with + " (v1 has no resolver)"@,
                            },
                        ),
                    ),
                ),
                HandshakePhaseView::SendingAbort { reason } => r == (
                    s.with_phase(HandshakePhaseView::MarkingAborted { reason }),
                    HandshakeActionView::SetSortieStatus {
                        status: SortieStatus::Aborted,
                        reason: Some(reason),
                    },
                ),
                HandshakePhaseView::MarkingAborted { reason } => r == (
                    failed,
                    HandshakeActionView::Finish(Err(HandshakeErrorView::OperatorAborted { reason })),
                ),
                HandshakePhaseView::MarkingComplete => r.1 == HandshakeActionView::AuditSortieComplete,
                HandshakePhaseView::AuditingComplete => r == (
                    s.with_phase(HandshakePhaseView::Finished { ok: true }),
                    HandshakeActionView::Finish(Ok(())),
                ),
                _ => true,
            }
        }),
{
}

/// A failed send ends the handshake with the link's error, and a failed
/// status or progress write ends it with the database's error; only the two
/// audit entries may fail without consequence. The handshake succeeds only
/// from its final audit, and whenever it finishes, its phase says how.
pub proof fn lemma_handshake_failures(s: HandshakeView, e: HandshakeEventView)
    requires
        s.wf(),
    ensures
        ({
            let r = handshake_step(s, e);
            let failed = s.with_phase(HandshakePhaseView::Finished { ok: false });
            &&& e matches HandshakeEventView::LinkFailed(l) ==> match s.phase {
                HandshakePhaseView::Uploading | HandshakePhaseView::SendingProceed { .. }
                | HandshakePhaseView::SendingHold { .. }
                | HandshakePhaseView::SendingConflictHold { .. }
                | HandshakePhaseView::SendingAbort { .. } => r == (
                    failed,
                    HandshakeActionView::Finish(Err(HandshakeErrorView::Link(l))),
                ),
                _ => r == (s, HandshakeActionView::Noop),
            }
            &&& e matches HandshakeEventView::DbFailed(d) ==> match s.phase {
                HandshakePhaseView::MarkingUploaded | HandshakePhaseView::MarkingExecuting
                | HandshakePhaseView::RecordingGate { .. }
                | HandshakePhaseView::MarkingAborted { .. }
                | HandshakePhaseView::MarkingRunning { .. }
                | HandshakePhaseView::RecordingComplete { .. }
                | HandshakePhaseView::MarkingComplete => r == (
                    failed,
                    HandshakeActionView::Finish(Err(HandshakeErrorView::Db(d))),
                ),
                HandshakePhaseView::AuditingStart | HandshakePhaseView::AuditingComplete => r
                    == handshake_step(s, HandshakeEventView::Done),
                _ => r == (s, HandshakeActionView::Noop),
            }
            &&& r.1 == HandshakeActionView::Finish(Ok(())) ==> s.phase
                == HandshakePhaseView::AuditingComplete
            &&& r.1 matches HandshakeActionView::Finish(res) ==> r.0.phase
                == (HandshakePhaseView::Finished { ok: res is Ok })
        }),
{
}

/// A step's gate decision is recorded against that step, under the
/// decision's own kind and with its reason: none for `AutoProceed`, the
/// operator's reason, the conflicting drone, or the abort reason.
pub proof fn lemma_gate_recorded(s: HandshakeView, pos: int, g: GateView)
    requires
        s.wf(),
        s.phase == (HandshakePhaseView::EvaluatingGate { pos }),
    ensures
        ({
            let r = handshake_step(s, HandshakeEventView::GateDecided(g));
            &&& r.0 == s.with_phase(HandshakePhaseView::RecordingGate { pos, gate: g })
            &&& r.1 matches HandshakeActionView::RecordStepGated { step_index, decision, reason }
            &&& step_index == s.steps[pos]
            &&& match g {
                GateView::AutoProceed => decision == GateDecision::AutoProceed && reason is None,
                GateView::OperatorRequired { reason: why } => decision
                    == GateDecision::OperatorRequired && reason == Some(why),
                GateView::FleetConflict { with } => decision == GateDecision::FleetConflict
                    && reason == Some(with),
                GateView::AbortSortie { reason: why } => decision == GateDecision::AbortSortie
                    && reason == Some(why),
            }
        }),
{
}

/// Steps are gated in order: step `p` is put to its gate only after
/// the executing mark (for the first step) or after the completion of step
/// `p - 1` was recorded; the final acknowledgement is awaited only once the
/// last step's completion was recorded.
pub proof fn lemma_steps_in_order(s: HandshakeView, e: HandshakeEventView)
    requires
        s.wf(),
    ensures
        ({
            let s2 = handshake_step(s, e).0;
            &&& s2.phase is EvaluatingGate && !(s.phase is EvaluatingGate) ==> {
                let p = s2.phase->EvaluatingGate_pos;
                ||| p == 0 && s.phase is MarkingExecuting
                ||| s.phase == (HandshakePhaseView::RecordingComplete { pos: p - 1 })
            }
            &&& s2.phase is AwaitingSortieComplete && !(s.phase is AwaitingSortieComplete) ==> {
                ||| s.steps.len() == 0 && s.phase is MarkingExecuting
                ||| s.phase == (HandshakePhaseView::RecordingComplete {
                    pos: s.steps.len() - 1,
                })
            }
            &&& s2.phase == (HandshakePhaseView::Finished { ok: true }) && !(s.phase is Finished)
                ==> s.phase is AuditingComplete
            &&& s2.phase is AuditingComplete && !(s.phase is AuditingComplete)
                ==> s.phase is MarkingComplete
            &&& s2.phase is MarkingComplete && !(s.phase is MarkingComplete) ==> {
                &&& s.phase is AwaitingSortieComplete
                &&& e == HandshakeEventView::Legion(
                    LegionReplyView::SortieComplete { sortie_id: s.sortie_id },
                )
            }
        }),
{
}

/// A finished handshake stays finished and asks for nothing more.
pub proof fn lemma_finished_is_final(s: HandshakeView, e: HandshakeEventView)
    requires
        s.phase is Finished,
    ensures
        handshake_step(s, e) == (s, HandshakeActionView::Noop),
{
}

/// Run the handshake over a sequence of events, collecting the actions.
pub open spec fn run_events(s: HandshakeView, evs: Seq<HandshakeEventView>) -> (
    HandshakeView,
    Seq<HandshakeActionView>,
)
    decreases evs.len(),
{
    if evs.len() == 0 {
        (s, Seq::empty())
    } else {
        let (s1, a) = handshake_step(s, evs[0]);
        let (s2, rest) = run_events(s1, evs.drop_first());
        (s2, seq![a] + rest)
    }
}

/// The step indices legion is told to proceed with, in order.
pub open spec fn proceeded(acts: Seq<HandshakeActionView>) -> Seq<u32>
    decreases acts.len(),
{
    if acts.len() == 0 {
        Seq::empty()
    } else {
        let rest = proceeded(acts.drop_first());
        match acts[0] {
            HandshakeActionView::SendProceed { step_index } => seq![step_index] + rest,
            _ => rest,
        }
    }
}

/// The events of one step when its gate proceeds automatically and legion
/// completes the step.
pub open spec fn step_round(sortie_id: Seq<char>, step_index: u32) -> Seq<HandshakeEventView> {
    seq![
        HandshakeEventView::GateDecided(GateView::AutoProceed),
        HandshakeEventView::Done,
        HandshakeEventView::Done,
        HandshakeEventView::Done,
        HandshakeEventView::Legion(LegionReplyView::StepComplete { sortie_id, step_index }),
        HandshakeEventView::Done,
    ]
}

/// The rounds of `steps`, one after the other.
pub open spec fn step_rounds(sortie_id: Seq<char>, steps: Seq<u32>) -> Seq<HandshakeEventView>
    decreases steps.len(),
{
    if steps.len() == 0 {
        Seq::empty()
    } else {
        step_round(sortie_id, steps[0]) + step_rounds(sortie_id, steps.drop_first())
    }
}

/// Every write succeeds, every gate proceeds automatically and legion
/// acknowledges the sortie, completes every step and the sortie.
pub open spec fn cooperative_events(sortie_id: Seq<char>, steps: Seq<u32>) -> Seq<
    HandshakeEventView,
> {
    seq![
        HandshakeEventView::Start,
        HandshakeEventView::Done,
        HandshakeEventView::Done,
        HandshakeEventView::Done,
        HandshakeEventView::Legion(LegionReplyView::SortieReceived { sortie_id }),
        HandshakeEventView::Done,
    ] + step_rounds(sortie_id, steps) + seq![
        HandshakeEventView::Legion(LegionReplyView::SortieComplete { sortie_id }),
        HandshakeEventView::Done,
        HandshakeEventView::Done,
    ]
}

/// Running two event sequences in turn is running their concatenation.
proof fn lemma_run_concat(s: HandshakeView, a: Seq<HandshakeEventView>, b: Seq<HandshakeEventView>)
    ensures
        run_events(s, a + b) == (run_events(run_events(s, a).0, b).0, run_events(s, a).1 + run_events(run_events(s, a).0, b).1),
    decreases a.len(),
{
    if a.len() == 0 {
        assert(a + b =~= b);
        assert(Seq::<HandshakeActionView>::empty() + run_events(s, b).1 =~= run_events(s, b).1);
    } else {
        let s1 = handshake_step(s, a[0]).0;
        let act = handshake_step(s, a[0]).1;
        assert((a + b)[0] == a[0]);
        assert((a + b).drop_first() =~= a.drop_first() + b);
        lemma_run_concat(s1, a.drop_first(), b);
        let r1 = run_events(s1, a.drop_first());
        assert(seq![act] + (r1.1 + run_events(r1.0, b).1) =~= (seq![act] + r1.1) + run_events(r1.0, b).1);
    }
}

/// The proceeds of concatenated actions are those of each part, in turn.
proof fn lemma_proceeded_concat(x: Seq<HandshakeActionView>, y: Seq<HandshakeActionView>)
    ensures
        proceeded(x + y) == proceeded(x) + proceeded(y),
    decreases x.len(),
{
    if x.len() == 0 {
        assert(x + y =~= y);
        assert(Seq::<u32>::empty() + proceeded(y) =~= proceeded(y));
    } else {
        assert((x + y)[0] == x[0]);
        assert((x + y).drop_first() =~= x.drop_first() + y);
        lemma_proceeded_concat(x.drop_first(), y);
        match x[0] {
            HandshakeActionView::SendProceed { step_index } => {
                assert(seq![step_index] + (proceeded(x.drop_first()) + proceeded(y)) =~= (seq![
                    step_index,
                ] + proceeded(x.drop_first())) + proceeded(y));
            },
            _ => {},
        }
    }
}

/// The rounds of the steps from position `p` on take the handshake from the
/// gate of step `p` to the final acknowledgement, proceeding with exactly
/// those steps in order.
proof fn lemma_rounds_from(s: HandshakeView, p: int)
    requires
        0 <= p < s.steps.len(),
        s.phase == (HandshakePhaseView::EvaluatingGate { pos: p }),
    ensures
        ({
            let r = run_events(s, step_rounds(s.sortie_id, s.steps.subrange(p, s.steps.len() as int)));
            &&& r.0 == s.with_phase(HandshakePhaseView::AwaitingSortieComplete)
            &&& proceeded(r.1) == s.steps.subrange(p, s.steps.len() as int)
        }),
    decreases s.steps.len() - p,
{
    let n = s.steps.len() as int;
    let sid = s.sortie_id;
    let idx = s.steps[p];
    let tail = s.steps.subrange(p, n);
    assert(tail[0] == idx);
    assert(tail.drop_first() =~= s.steps.subrange(p + 1, n));
    let round = step_round(sid, idx);
    let rest = step_rounds(sid, s.steps.subrange(p + 1, n));
    assert(step_rounds(sid, tail) == round + rest);
    lemma_run_concat(s, round, rest);
    // Unfold the six events of the round.
    let e0 = handshake_step(s, round[0]);
    let e1 = handshake_step(e0.0, round[1]);
    let e2 = handshake_step(e1.0, round[2]);
    let e3 = handshake_step(e2.0, round[3]);
    let e4 = handshake_step(e3.0, round[4]);
    let e5 = handshake_step(e4.0, round[5]);
    assert(e1.1 == HandshakeActionView::SendProceed { step_index: idx });
    reveal_with_fuel(run_events, 7);
    assert(round.drop_first().drop_first().drop_first().drop_first().drop_first().drop_first()
        =~= Seq::<HandshakeEventView>::empty());
    let after = run_events(s, round);
    assert(after.0 == e5.0);
    assert(after.1 =~= seq![e0.1, e1.1, e2.1, e3.1, e4.1, e5.1]);
    reveal_with_fuel(proceeded, 7);
    assert(proceeded(after.1) =~= seq![idx]);
    lemma_proceeded_concat(after.1, run_events(after.0, rest).1);
    if p + 1 < n {
        assert(after.0 == s.with_phase(HandshakePhaseView::EvaluatingGate { pos: p + 1 }));
        lemma_rounds_from(after.0, p + 1);
        assert(seq![idx] + s.steps.subrange(p + 1, n) =~= tail);
    } else {
        assert(after.0 == s.with_phase(HandshakePhaseView::AwaitingSortieComplete));
        assert(s.steps.subrange(p + 1, n) =~= Seq::<u32>::empty());
        assert(rest =~= Seq::<HandshakeEventView>::empty());
        assert(seq![idx] =~= tail);
        assert(run_events(after.0, rest).1 =~= Seq::<HandshakeActionView>::empty());
    }
}

/// From the start to the executing mark: audit, upload, marks and the receipt.
pub open spec fn opening_events(sortie_id: Seq<char>) -> Seq<HandshakeEventView> {
    seq![
        HandshakeEventView::Start,
        HandshakeEventView::Done,
        HandshakeEventView::Done,
        HandshakeEventView::Done,
        HandshakeEventView::Legion(LegionReplyView::SortieReceived { sortie_id }),
        HandshakeEventView::Done,
    ]
}

/// The completion acknowledgement, its mark and its audit entry.
pub open spec fn closing_events(sortie_id: Seq<char>) -> Seq<HandshakeEventView> {
    seq![
        HandshakeEventView::Legion(LegionReplyView::SortieComplete { sortie_id }),
        HandshakeEventView::Done,
        HandshakeEventView::Done,
    ]
}

/// The opening events take a ready handshake to the first gate (or to the
/// final acknowledgement for a sortie without steps) without any proceed.
proof fn lemma_opening(s0: HandshakeView)
    requires
        s0.phase == HandshakePhaseView::Ready,
    ensures
        ({
            let r = run_events(s0, opening_events(s0.sortie_id));
            &&& r.0 == begin_step(s0, 0).0
            &&& proceeded(r.1) == Seq::<u32>::empty()
        }),
{
    let head = opening_events(s0.sortie_id);
    reveal_with_fuel(run_events, 7);
    reveal_with_fuel(proceeded, 7);
    let h0 = handshake_step(s0, head[0]);
    let h1 = handshake_step(h0.0, head[1]);
    let h2 = handshake_step(h1.0, head[2]);
    let h3 = handshake_step(h2.0, head[3]);
    let h4 = handshake_step(h3.0, head[4]);
    let h5 = handshake_step(h4.0, head[5]);
    assert(head.drop_first().drop_first().drop_first().drop_first().drop_first().drop_first()
        =~= Seq::<HandshakeEventView>::empty());
    let rh = run_events(s0, head);
    assert(rh.0 == h5.0);
    assert(rh.1 =~= seq![h0.1, h1.1, h2.1, h3.1, h4.1, h5.1]);
}

/// The closing events finish the handshake successfully.
proof fn lemma_closing(s: HandshakeView)
    requires
        s.phase == HandshakePhaseView::AwaitingSortieComplete,
    ensures
        ({
            let r = run_events(s, closing_events(s.sortie_id));
            &&& r.0.phase == (HandshakePhaseView::Finished { ok: true })
            &&& proceeded(r.1) == Seq::<u32>::empty()
            &&& r.1.last() == HandshakeActionView::Finish(Ok(()))
        }),
{
    let tail = closing_events(s.sortie_id);
    reveal_with_fuel(run_events, 4);
    reveal_with_fuel(proceeded, 4);
    let t0 = handshake_step(s, tail[0]);
    let t1 = handshake_step(t0.0, tail[1]);
    let t2 = handshake_step(t1.0, tail[2]);
    assert(tail.drop_first().drop_first().drop_first() =~= Seq::<HandshakeEventView>::empty());
    let rt = run_events(s, tail);
    assert(rt.1 =~= seq![t0.1, t1.1, t2.1]);
}

/// With cooperative writes, automatic gates and a legion that acknowledges
/// everything, the handshake tells legion to proceed with every step exactly
/// once and in order, and ends successfully.
pub proof fn lemma_cooperative_run(sortie_id: Seq<char>, steps: Seq<u32>)
    ensures
        ({
            let s0 = HandshakeView { sortie_id, steps, phase: HandshakePhaseView::Ready };
            let r = run_events(s0, cooperative_events(sortie_id, steps));
            &&& r.0.phase == (HandshakePhaseView::Finished { ok: true })
            &&& proceeded(r.1) == steps
            &&& r.1.last() == HandshakeActionView::Finish(Ok(()))
        }),
{
    let s0 = HandshakeView { sortie_id, steps, phase: HandshakePhaseView::Ready };
    let head = opening_events(sortie_id);
    let mid = step_rounds(sortie_id, steps);
    let tail = closing_events(sortie_id);
    assert(cooperative_events(sortie_id, steps) == head + mid + tail);
    lemma_run_concat(s0, head + mid, tail);
    lemma_run_concat(s0, head, mid);
    lemma_opening(s0);
    let rh = run_events(s0, head);
    let rm = run_events(rh.0, mid);
    if steps.len() > 0 {
        assert(steps.subrange(0, steps.len() as int) =~= steps);
        lemma_rounds_from(rh.0, 0);
    } else {
        assert(mid =~= Seq::<HandshakeEventView>::empty());
        assert(rm.1 =~= Seq::<HandshakeActionView>::empty());
    }
    assert(rm.0 == s0.with_phase(HandshakePhaseView::AwaitingSortieComplete));
    assert(proceeded(rm.1) == steps);
    lemma_closing(rm.0);
    let rt = run_events(rm.0, tail);
    lemma_proceeded_concat(rh.1, rm.1);
    lemma_proceeded_concat(rh.1 + rm.1, rt.1);
    assert(proceeded(rh.1) + proceeded(rm.1) =~= steps);
    assert(steps + Seq::<u32>::empty() =~= steps);
    let all = rh.1 + rm.1 + rt.1;
    assert(all.last() == rt.1.last());
}


/// The step indices whose completion the handshake asks to record, in order.
pub open spec fn completed(acts: Seq<HandshakeActionView>) -> Seq<u32>
    decreases acts.len(),
{
    if acts.len() == 0 {
        Seq::empty()
    } else {
        let rest = completed(acts.drop_first());
        match acts[0] {
            HandshakeActionView::RecordStepComplete { step_index } => seq![step_index] + rest,
            _ => rest,
        }
    }
}

/// The frame by which legion acknowledges the upload of sortie `sortie_id`.
pub open spec fn receipt(sortie_id: Seq<char>) -> HandshakeEventView {
    HandshakeEventView::Legion(LegionReplyView::SortieReceived { sortie_id })
}

/// An action that sends a command to legion.
pub open spec fn is_command(a: HandshakeActionView) -> bool {
    ||| a is UploadSortie
    ||| a is SendProceed
    ||| a is SendHold
    ||| a is SendAbort
}

/// What a handshake in state `s` has done: `p` are the steps it told legion
/// to proceed with, `c` the completions it recorded, `r` whether legion
/// acknowledged the sortie, `u` whether the sortie was uploaded.
pub open spec fn trace_inv(s: HandshakeView, p: Seq<u32>, c: Seq<u32>, r: bool, u: bool) -> bool {
    let n = s.steps.len();
    &&& s.wf()
    &&& p.is_prefix_of(s.steps)
    &&& c.is_prefix_of(s.steps)
    &&& p.len() <= c.len() + 1
    &&& p.len() > 0 ==> r
    &&& match s.phase {
        HandshakePhaseView::Ready | HandshakePhaseView::AuditingStart => p.len() == 0 && c.len()
            == 0,
        HandshakePhaseView::Uploading
        | HandshakePhaseView::MarkingUploaded
        | HandshakePhaseView::AwaitingReceived => p.len() == 0 && c.len() == 0 && u,
        HandshakePhaseView::MarkingExecuting => p.len() == 0 && c.len() == 0 && r && u,
        HandshakePhaseView::EvaluatingGate { pos }
        | HandshakePhaseView::RecordingGate { pos, .. }
        | HandshakePhaseView::SendingHold { pos }
        | HandshakePhaseView::AwaitingOperator { pos } => p.len() == pos && c.len() == pos && r
            && u,
        HandshakePhaseView::SendingConflictHold { .. }
        | HandshakePhaseView::SendingAbort { .. }
        | HandshakePhaseView::MarkingAborted { .. } => p.len() == c.len() && r && u,
        HandshakePhaseView::SendingProceed { pos }
        | HandshakePhaseView::MarkingRunning { pos }
        | HandshakePhaseView::AwaitingStep { pos } => p.len() == pos + 1 && c.len() == pos && r
            && u,
        HandshakePhaseView::RecordingComplete { pos } => p.len() == pos + 1 && c.len() == pos + 1
            && r && u,
        HandshakePhaseView::AwaitingSortieComplete
        | HandshakePhaseView::MarkingComplete
        | HandshakePhaseView::AuditingComplete => p.len() == n && c.len() == n && r && u,
        HandshakePhaseView::Finished { .. } => true,
    }
}

proof fn lemma_single(a: HandshakeActionView)
    ensures
        proceeded(seq![a]) == (match a {
            HandshakeActionView::SendProceed { step_index } => seq![step_index],
            _ => Seq::<u32>::empty(),
        }),
        completed(seq![a]) == (match a {
            HandshakeActionView::RecordStepComplete { step_index } => seq![step_index],
            _ => Seq::<u32>::empty(),
        }),
{
    reveal_with_fuel(proceeded, 2);
    reveal_with_fuel(completed, 2);
    assert(seq![a].drop_first() =~= Seq::<HandshakeActionView>::empty());
    assert(seq![a][0] == a);
    match a {
        HandshakeActionView::SendProceed { step_index } => {
            assert(seq![step_index] + Seq::<u32>::empty() =~= seq![step_index]);
        },
        HandshakeActionView::RecordStepComplete { step_index } => {
            assert(seq![step_index] + Seq::<u32>::empty() =~= seq![step_index]);
        },
        _ => {},
    }
}

proof fn lemma_prefix_push(p: Seq<u32>, steps: Seq<u32>)
    requires
        p.is_prefix_of(steps),
        p.len() < steps.len(),
    ensures
        (p + seq![steps[p.len() as int]]).is_prefix_of(steps),
{
    assert(p + seq![steps[p.len() as int]] =~= steps.subrange(0, p.len() as int + 1));
}

/// One transition keeps the record of what the handshake has done.
#[verifier::rlimit(100)]
proof fn lemma_trace_step(
    s: HandshakeView,
    e: HandshakeEventView,
    p: Seq<u32>,
    c: Seq<u32>,
    r: bool,
    u: bool,
)
    requires
        trace_inv(s, p, c, r, u),
    ensures
        ({
            let (s2, a) = handshake_step(s, e);
            &&& s2.sortie_id == s.sortie_id
            &&& s2.steps == s.steps
            &&& trace_inv(
                s2,
                p + proceeded(seq![a]),
                c + completed(seq![a]),
                r || e == receipt(s.sortie_id),
                u || a is UploadSortie,
            )
            &&& is_command(a) && !(a is UploadSortie) ==> u
            &&& a is Finish ==> s2.phase is Finished
        }),
{
    let (s2, a) = handshake_step(s, e);
    lemma_single(a);
    assert(p + Seq::<u32>::empty() =~= p);
    assert(c + Seq::<u32>::empty() =~= c);
    match s.phase {
        HandshakePhaseView::RecordingGate { pos, gate } => {
            if a is SendProceed {
                lemma_prefix_push(p, s.steps);
            }
        },
        HandshakePhaseView::AwaitingOperator { pos } => {
            if a is SendProceed {
                lemma_prefix_push(p, s.steps);
            }
        },
        HandshakePhaseView::AwaitingStep { pos } => {
            if a is RecordStepComplete {
                lemma_prefix_push(c, s.steps);
            }
        },
        _ => {},
    }
}

/// The completions of concatenated actions are those of each part, in turn.
proof fn lemma_completed_concat(x: Seq<HandshakeActionView>, y: Seq<HandshakeActionView>)
    ensures
        completed(x + y) == completed(x) + completed(y),
    decreases x.len(),
{
    if x.len() == 0 {
        assert(x + y =~= y);
        assert(Seq::<u32>::empty() + completed(y) =~= completed(y));
    } else {
        assert((x + y)[0] == x[0]);
        assert((x + y).drop_first() =~= x.drop_first() + y);
        lemma_completed_concat(x.drop_first(), y);
        match x[0] {
            HandshakeActionView::RecordStepComplete { step_index } => {
                assert(seq![step_index] + (completed(x.drop_first()) + completed(y)) =~= (seq![
                    step_index,
                ] + completed(x.drop_first())) + completed(y));
            },
            _ => {},
        }
    }
}

/// A run yields one action per event.
proof fn lemma_run_len(s: HandshakeView, evs: Seq<HandshakeEventView>)
    ensures
        run_events(s, evs).1.len() == evs.len(),
    decreases evs.len(),
{
    if evs.len() > 0 {
        lemma_run_len(handshake_step(s, evs[0]).0, evs.drop_first());
    }
}

/// From a finished state, every event is answered with `Noop`.
proof fn lemma_finished_stays(s: HandshakeView, evs: Seq<HandshakeEventView>)
    requires
        s.phase is Finished,
    ensures
        forall|k: int| 0 <= k < run_events(s, evs).1.len() ==> #[trigger] run_events(s, evs).1[k]
            == HandshakeActionView::Noop,
    decreases evs.len(),
{
    if evs.len() > 0 {
        lemma_finished_is_final(s, evs[0]);
        lemma_finished_stays(s, evs.drop_first());
        let acts = run_events(s, evs).1;
        let rest = run_events(s, evs.drop_first()).1;
        assert(acts == seq![HandshakeActionView::Noop] + rest);
        assert forall|k: int| 0 <= k < acts.len() implies #[trigger] acts[k]
            == HandshakeActionView::Noop by {
            if k > 0 {
                assert(acts[k] == rest[k - 1]);
            }
        }
    }
}

/// The facts kept over a whole trace: the proceeds and the recorded
/// completions follow the steps in order, a step is proceeded with only
/// once every step before it was recorded complete, and only after the
/// receipt.
pub open spec fn trace_facts(steps: Seq<u32>, p: Seq<u32>, c: Seq<u32>, r: bool) -> bool {
    &&& p.is_prefix_of(steps)
    &&& c.is_prefix_of(steps)
    &&& p.len() <= c.len() + 1
    &&& p.len() > 0 ==> r
}

proof fn lemma_trace_from(
    s: HandshakeView,
    evs: Seq<HandshakeEventView>,
    p: Seq<u32>,
    c: Seq<u32>,
    r: bool,
    u: bool,
)
    requires
        trace_inv(s, p, c, r, u),
    ensures
        ({
            let acts = run_events(s, evs).1;
            &&& forall|j: int|
                0 <= j <= evs.len() ==> trace_facts(
                    s.steps,
                    p + proceeded(#[trigger] acts.take(j)),
                    c + completed(acts.take(j)),
                    r || evs.take(j).contains(receipt(s.sortie_id)),
                )
            &&& forall|j: int|
                0 <= j < acts.len() && is_command(#[trigger] acts[j]) && !(acts[j] is UploadSortie)
                    ==> u || acts.take(j).contains(HandshakeActionView::UploadSortie)
            &&& forall|j: int, k: int|
                #![trigger acts[j], acts[k]]
                0 <= j < k < acts.len() && acts[j] is Finish ==> acts[k]
                    == HandshakeActionView::Noop
        }),
    decreases evs.len(),
{
    let acts = run_events(s, evs).1;
    let rc = receipt(s.sortie_id);
    lemma_run_len(s, evs);
    if evs.len() == 0 {
        assert forall|j: int| 0 <= j <= evs.len() implies trace_facts(
            s.steps,
            p + proceeded(#[trigger] acts.take(j)),
            c + completed(acts.take(j)),
            r || evs.take(j).contains(rc),
        ) by {
            assert(acts.take(j) =~= Seq::<HandshakeActionView>::empty());
            assert(p + Seq::<u32>::empty() =~= p);
            assert(c + Seq::<u32>::empty() =~= c);
        }
    } else {
        let e0 = evs[0];
        let s1 = handshake_step(s, e0).0;
        let a0 = handshake_step(s, e0).1;
        let evs1 = evs.drop_first();
        lemma_trace_step(s, e0, p, c, r, u);
        let p1 = p + proceeded(seq![a0]);
        let c1 = c + completed(seq![a0]);
        let r1 = r || e0 == rc;
        let u1 = u || a0 is UploadSortie;
        lemma_trace_from(s1, evs1, p1, c1, r1, u1);
        lemma_run_len(s1, evs1);
        let rest = run_events(s1, evs1).1;
        assert(acts == seq![a0] + rest);
        assert forall|j: int| 0 <= j <= evs.len() implies trace_facts(
            s.steps,
            p + proceeded(#[trigger] acts.take(j)),
            c + completed(acts.take(j)),
            r || evs.take(j).contains(rc),
        ) by {
            if j == 0 {
                assert(acts.take(j) =~= Seq::<HandshakeActionView>::empty());
                assert(p + Seq::<u32>::empty() =~= p);
                assert(c + Seq::<u32>::empty() =~= c);
            } else {
                let t = rest.take(j - 1);
                assert(acts.take(j) =~= seq![a0] + t);
                lemma_proceeded_concat(seq![a0], t);
                lemma_completed_concat(seq![a0], t);
                assert(p + proceeded(acts.take(j)) =~= p1 + proceeded(t));
                assert(c + completed(acts.take(j)) =~= c1 + completed(t));
                assert(trace_facts(
                    s.steps,
                    p1 + proceeded(rest.take(j - 1)),
                    c1 + completed(rest.take(j - 1)),
                    r1 || evs1.take(j - 1).contains(rc),
                ));
                if e0 == rc {
                    assert(evs.take(j)[0] == rc);
                }
                if evs1.take(j - 1).contains(rc) {
                    let et = evs1.take(j - 1);
                    let i = choose|i: int| 0 <= i < et.len() && #[trigger] et[i] == rc;
                    assert(evs.take(j)[i + 1] == rc);
                }
            }
        }
        assert forall|j: int|
            0 <= j < acts.len() && is_command(#[trigger] acts[j]) && !(acts[j] is UploadSortie)
                implies u || acts.take(j).contains(HandshakeActionView::UploadSortie) by {
            if j > 0 {
                assert(acts[j] == rest[j - 1]);
                if a0 is UploadSortie {
                    assert(acts.take(j)[0] == a0);
                }
                if rest.take(j - 1).contains(HandshakeActionView::UploadSortie) {
                    let rt = rest.take(j - 1);
                    let i = choose|i: int|
                        0 <= i < rt.len() && #[trigger] rt[i] == HandshakeActionView::UploadSortie;
                    assert(acts.take(j)[i + 1] == HandshakeActionView::UploadSortie);
                }
            }
        }
        assert forall|j: int, k: int|
            #![trigger acts[j], acts[k]]
            0 <= j < k < acts.len() && acts[j] is Finish implies acts[k]
                == HandshakeActionView::Noop by {
            assert(acts[k] == rest[k - 1]);
            if j == 0 {
                lemma_finished_stays(s1, evs1);
            } else {
                assert(acts[j] == rest[j - 1]);
            }
        }
    }
}

/// Over any sequence of events, from the start of a sortie's handshake:
/// legion is told to proceed with the steps in their order, each at most
/// once; a step is proceeded with only once the completion of every step
/// before it was recorded, and the first only after legion acknowledged the
/// sortie; no command goes out before the sortie was uploaded; and once the
/// handshake has finished (with success or an error) it asks for nothing
/// more.
pub proof fn lemma_handshake_trace(
    sortie_id: Seq<char>,
    steps: Seq<u32>,
    evs: Seq<HandshakeEventView>,
)
    ensures
        ({
            let s0 = HandshakeView { sortie_id, steps, phase: HandshakePhaseView::Ready };
            let acts = run_events(s0, evs).1;
            &&& acts.len() == evs.len()
            &&& forall|j: int|
                0 <= j <= evs.len() ==> trace_facts(
                    steps,
                    proceeded(#[trigger] acts.take(j)),
                    completed(acts.take(j)),
                    evs.take(j).contains(receipt(sortie_id)),
                )
            &&& forall|j: int|
                0 <= j < acts.len() && is_command(#[trigger] acts[j]) && !(acts[j] is UploadSortie)
                    ==> acts.take(j).contains(HandshakeActionView::UploadSortie)
            &&& forall|j: int, k: int|
                #![trigger acts[j], acts[k]]
                0 <= j < k < acts.len() && acts[j] is Finish ==> acts[k]
                    == HandshakeActionView::Noop
        }),
{
    let s0 = HandshakeView { sortie_id, steps, phase: HandshakePhaseView::Ready };
    let e = Seq::<u32>::empty();
    assert(e =~= steps.subrange(0, 0));
    lemma_trace_from(s0, evs, e, e, false, false);
    lemma_run_len(s0, evs);
    let acts = run_events(s0, evs).1;
    assert forall|j: int| 0 <= j <= evs.len() implies trace_facts(
        steps,
        proceeded(#[trigger] acts.take(j)),
        completed(acts.take(j)),
        evs.take(j).contains(receipt(sortie_id)),
    ) by {
        assert(e + proceeded(acts.take(j)) =~= proceeded(acts.take(j)));
        assert(e + completed(acts.take(j)) =~= completed(acts.take(j)));
    }
}

} // verus!
