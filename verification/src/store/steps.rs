//! Step progress vocabulary.

use vstd::prelude::*;

use crate::store::sorties::{column_u32, u32_or_zero};

verus! {

/// Progress of one step, as recorded in `step_progress.state`.
#[derive(Debug, Clone, Copy, PartialEq, Eq, Structural)]
pub enum StepProgressState {
    Gating,
    Running,
    Complete,
    Failed,
    Held,
    Aborted,
}

pub open spec fn step_progress_text(s: StepProgressState) -> Seq<char> {
    match s {
        StepProgressState::Gating => "Gating"@,
        StepProgressState::Running => "Running"@,
        StepProgressState::Complete => "Complete"@,
        StepProgressState::Failed => "Failed"@,
        StepProgressState::Held => "Held"@,
        StepProgressState::Aborted => "Aborted"@,
    }
}

impl StepProgressState {
    pub fn as_str(self) -> (r: &'static str)
        ensures
            r@ == step_progress_text(self),
    {
        match self {
            StepProgressState::Gating => "Gating",
            StepProgressState::Running => "Running",
            StepProgressState::Complete => "Complete",
            StepProgressState::Failed => "Failed",
            StepProgressState::Held => "Held",
            StepProgressState::Aborted => "Aborted",
        }
    }
}

/// The decision recorded at a step's gate.
#[derive(Debug, Clone, Copy, PartialEq, Eq, Structural)]
pub enum GateDecision {
    AutoProceed,
    OperatorRequired,
    FleetConflict,
    AbortSortie,
}

pub open spec fn gate_decision_text(d: GateDecision) -> Seq<char> {
    match d {
        GateDecision::AutoProceed => "AutoProceed"@,
        GateDecision::OperatorRequired => "OperatorRequired"@,
        GateDecision::FleetConflict => "FleetConflict"@,
        GateDecision::AbortSortie => "AbortSortie"@,
    }
}

impl GateDecision {
    pub fn as_str(self) -> (r: &'static str)
        ensures
            r@ == gate_decision_text(self),
    {
        match self {
            GateDecision::AutoProceed => "AutoProceed",
            GateDecision::OperatorRequired => "OperatorRequired",
            GateDecision::FleetConflict => "FleetConflict",
            GateDecision::AbortSortie => "AbortSortie",
        }
    }
}

/// The highest completed step read back from `MAX(step_index)`: none when
/// the column is null, and 0 for a value outside `u32`.
pub fn last_completed_from_column(v: Option<i64>) -> (r: Option<u32>)
    ensures
        r == match v {
            Some(x) => Some(u32_or_zero(x as int)),
            None => None::<u32>,
        },
{
    match v {
        Some(x) => Some(column_u32(x)),
        None => None,
    }
}

/// Each step progress state is stored under its variant name.
pub proof fn lemma_step_progress_names()
    ensures
        step_progress_text(StepProgressState::Gating) == "Gating"@,
        step_progress_text(StepProgressState::Running) == "Running"@,
        step_progress_text(StepProgressState::Complete) == "Complete"@,
        step_progress_text(StepProgressState::Failed) == "Failed"@,
        step_progress_text(StepProgressState::Held) == "Held"@,
        step_progress_text(StepProgressState::Aborted) == "Aborted"@,
{
}

/// Each gate decision is stored under its variant name.
pub proof fn lemma_gate_decision_names()
    ensures
        gate_decision_text(GateDecision::AutoProceed) == "AutoProceed"@,
        gate_decision_text(GateDecision::OperatorRequired) == "OperatorRequired"@,
        gate_decision_text(GateDecision::FleetConflict) == "FleetConflict"@,
        gate_decision_text(GateDecision::AbortSortie) == "AbortSortie"@,
{
}

} // verus!
