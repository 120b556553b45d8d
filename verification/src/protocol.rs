//! The oracle ↔ legion vocabulary as the oracle's logic sees it: step
//! types, radio-loss policies, sorties and the replies legion sends back.
//!
//! Geometry (waypoints, paths' coordinates, speeds in m/s, paint volume)
//! is floating point and is carried as an opaque per-step payload `W`
//! chosen by the caller; everything the oracle decides on is plain data.

use vstd::prelude::*;

verus! {

/// What a sortie step does.
#[derive(Debug, Clone, Copy, PartialEq, Eq, Structural)]
pub enum StepType {
    Takeoff,
    Transit,
    SprayPass,
    RefillApproach,
    RefillWait,
    ReturnToBase,
    Land,
}

/// What legion does with a step when the radio link goes silent.
#[derive(Debug, Clone, Copy, PartialEq, Eq, Structural)]
pub enum RadioLossBehaviour {
    Continue,
    HoldThenRtl,
    RtlImmediately,
}

/// Radio-loss policy stamped on every step. Timeouts are whole seconds.
#[derive(Debug, Clone, Copy, PartialEq, Eq, Structural)]
pub struct RadioLossPolicy {
    pub behaviour: RadioLossBehaviour,
    pub silent_timeout_s: u32,
    pub hold_then_rtl_after_s: Option<u32>,
}

/// Which configured speed a step flies at.
#[derive(Debug, Clone, Copy, PartialEq, Eq, Structural)]
pub enum StepSpeed {
    /// The ferry / takeoff / landing speed.
    Ferry,
    /// The spray-pass speed.
    Spray,
}

/// One step of a sortie. `W` is the waypoint payload.
#[derive(Debug, Clone)]
pub struct SortieStep<W> {
    pub index: u32,
    pub step_type: StepType,
    pub waypoint: W,
    pub path: Option<Vec<W>>,
    pub speed: StepSpeed,
    pub spray: bool,
    pub radio_loss: RadioLossPolicy,
    pub expected_duration_s: u32,
}

/// One drone's mission: a typed sequence of steps.
#[derive(Debug, Clone)]
pub struct Sortie<W> {
    pub sortie_id: String,
    pub plan_id: String,
    pub drone_id: String,
    pub steps: Vec<SortieStep<W>>,
    pub expected_duration_s: u32,
}

/// Flight phase reported by a drone.
#[derive(Debug, Clone, Copy, PartialEq, Eq, Structural)]
pub enum DronePhase {
    Idle,
    Armed,
    InAir,
    ExecutingStep,
    Holding,
    Landing,
}

impl Default for DronePhase {
    fn default() -> (r: DronePhase)
        ensures
            r == DronePhase::Idle,
    {
        DronePhase::Idle
    }
}

/// A frame legion sent, reduced to what the apply handshake reads.
#[derive(Debug, Clone)]
pub enum LegionReply {
    SortieReceived { sortie_id: String },
    StepComplete { sortie_id: String, step_index: u32 },
    SortieFailed { sortie_id: String, step_index: u32, reason: String },
    /// A safety event; `kind` is the kind's debug rendering.
    SafetyEvent { kind: String, action: String },
    SortieComplete { sortie_id: String },
    /// An error frame; `code` is the code's display rendering.
    Error { code: String, message: String },
    /// Any other frame (hello, telemetry, heartbeat, ...).
    Other,
}

/// The plain view of a legion reply.
pub enum LegionReplyView {
    SortieReceived { sortie_id: Seq<char> },
    StepComplete { sortie_id: Seq<char>, step_index: u32 },
    SortieFailed { sortie_id: Seq<char>, step_index: u32, reason: Seq<char> },
    SafetyEvent { kind: Seq<char>, action: Seq<char> },
    SortieComplete { sortie_id: Seq<char> },
    Error { code: Seq<char>, message: Seq<char> },
    Other,
}

impl View for LegionReply {
    type V = LegionReplyView;

    open spec fn view(&self) -> LegionReplyView {
        match self {
            LegionReply::SortieReceived { sortie_id } => LegionReplyView::SortieReceived {
                sortie_id: sortie_id@,
            },
            LegionReply::StepComplete { sortie_id, step_index } => LegionReplyView::StepComplete {
                sortie_id: sortie_id@,
                step_index: *step_index,
            },
            LegionReply::SortieFailed { sortie_id, step_index, reason } =>
                LegionReplyView::SortieFailed {
                    sortie_id: sortie_id@,
                    step_index: *step_index,
                    reason: reason@,
                },
            LegionReply::SafetyEvent { kind, action } => LegionReplyView::SafetyEvent {
                kind: kind@,
                action: action@,
            },
            LegionReply::SortieComplete { sortie_id } => LegionReplyView::SortieComplete {
                sortie_id: sortie_id@,
            },
            LegionReply::Error { code, message } => LegionReplyView::Error {
                code: code@,
                message: message@,
            },
            LegionReply::Other => LegionReplyView::Other,
        }
    }
}

} // verus!
