//! Command authority — the witness that a command comes from an approved
//! plan or from the safety-override path.

use vstd::prelude::*;

use crate::domain::plan::PlanId;

verus! {

/// Witness that a command is authorised by an approved plan. Only
/// [`CommandAuthority::for_approved_plan`] mints one.
#[derive(Debug, Clone, Copy)]
pub struct CommandAuthority {
    plan_id: PlanId,
}

impl CommandAuthority {
    /// The plan this authority was minted for.
    pub closed spec fn spec_plan_id(self) -> PlanId {
        self.plan_id
    }

    /// Mint an authority for an approved plan. Private to the crate: only
    /// the apply supervisor mints one, when it starts a sortie.
    pub(crate) fn for_approved_plan(plan_id: PlanId) -> (r: CommandAuthority)
        ensures
            r.spec_plan_id() == plan_id,
    {
        CommandAuthority { plan_id }
    }

    /// The plan this authority was minted for.
    pub fn plan_id(&self) -> (r: PlanId)
        ensures
            r == self.spec_plan_id(),
    {
        self.plan_id
    }
}

/// Authority for a command: tied to a plan, or the safety override.
#[derive(Debug, Clone, Copy)]
pub enum AuthorityKind {
    Plan(CommandAuthority),
    SafetyOverride,
}

/// Why a drone is told to hold position.
#[derive(Debug, Clone, Copy, PartialEq, Eq, Structural)]
pub enum HoldReason {
    Conflict,
    Operator,
    Weather,
}

/// The reason sent to legion with a hold.
pub open spec fn hold_reason_text(r: HoldReason) -> Seq<char> {
    match r {
        HoldReason::Conflict => "fleet_conflict"@,
        HoldReason::Operator => "operator_pause"@,
        HoldReason::Weather => "weather_hold"@,
    }
}

impl HoldReason {
    /// The reason's text as legion receives it.
    pub fn as_str(self) -> (r: &'static str)
        ensures
            r@ == hold_reason_text(self),
    {
        match self {
            HoldReason::Conflict => "fleet_conflict",
            HoldReason::Operator => "operator_pause",
            HoldReason::Weather => "weather_hold",
        }
    }
}

/// The reasons legion receives with a hold.
pub proof fn lemma_hold_reason_names()
    ensures
        hold_reason_text(HoldReason::Conflict) == "fleet_conflict"@,
        hold_reason_text(HoldReason::Operator) == "operator_pause"@,
        hold_reason_text(HoldReason::Weather) == "weather_hold"@,
{
}

} // verus!
