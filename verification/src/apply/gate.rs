//! Step gating vocabulary.

use vstd::prelude::*;

verus! {

/// The decision taken before each step transition.
#[derive(Debug, Clone)]
pub enum Gate {
    /// Legion can start the next step immediately.
    AutoProceed,
    /// The step needs explicit operator approval.
    OperatorRequired { reason: String },
    /// The fleet monitor flagged a conflict; legion must hold.
    FleetConflict { with: String },
    /// Unrecoverable: abort the whole sortie.
    AbortSortie { reason: String },
}

pub enum GateView {
    AutoProceed,
    OperatorRequired { reason: Seq<char> },
    FleetConflict { with: Seq<char> },
    AbortSortie { reason: Seq<char> },
}

impl View for Gate {
    type V = GateView;

    open spec fn view(&self) -> GateView {
        match self {
            Gate::AutoProceed => GateView::AutoProceed,
            Gate::OperatorRequired { reason } => GateView::OperatorRequired { reason: reason@ },
            Gate::FleetConflict { with } => GateView::FleetConflict { with: with@ },
            Gate::AbortSortie { reason } => GateView::AbortSortie { reason: reason@ },
        }
    }
}

/// Decision an operator made on a gated step.
#[derive(Debug, Clone)]
pub enum OperatorDecision {
    Proceed,
    Hold,
    AbortSortie { reason: String },
}

/// The default evaluator: every step proceeds without a gate.
#[derive(Debug, Default, Clone, Copy)]
pub struct AutoProceedEvaluator;

impl AutoProceedEvaluator {
    /// Every step may proceed automatically.
    pub fn evaluate(&self) -> (g: Gate)
        ensures
            g is AutoProceed,
    {
        Gate::AutoProceed
    }
}

} // verus!
