//! Sortie persistence vocabulary: the sortie status, the step-type and
//! radio-loss codecs of the `sortie_steps` table, and the decoding of
//! integer columns.

use vstd::prelude::*;

use crate::protocol::{RadioLossBehaviour, StepType};
use crate::text::{joined, str_eq};

verus! {

/// Lifecycle status of a sortie row.
#[derive(Debug, Clone, Copy, PartialEq, Eq, Structural)]
pub enum SortieStatus {
    Pending,
    Uploaded,
    Executing,
    Complete,
    Failed,
    Aborted,
}

/// How a sortie status change is written: which lifecycle timestamp it
/// stamps and whether it records a failure reason.
#[derive(Debug, Clone, Copy, PartialEq, Eq, Structural)]
pub enum SortieStatusUpdate {
    /// Status `Uploaded`, stamping `uploaded_at`.
    Uploaded,
    /// Status `Executing`, stamping `started_at`.
    Started,
    /// Status `Complete`, stamping `ended_at`.
    Ended,
    /// A terminal failure (`Failed` or `Aborted`), stamping `ended_at` and
    /// recording the failure reason.
    EndedWithReason,
    /// Status only (`Pending`).
    StatusOnly,
}

impl SortieStatus {
    /// The write a change to this status needs.
    pub open spec fn spec_update(self) -> SortieStatusUpdate {
        match self {
            SortieStatus::Uploaded => SortieStatusUpdate::Uploaded,
            SortieStatus::Executing => SortieStatusUpdate::Started,
            SortieStatus::Complete => SortieStatusUpdate::Ended,
            SortieStatus::Failed | SortieStatus::Aborted => SortieStatusUpdate::EndedWithReason,
            SortieStatus::Pending => SortieStatusUpdate::StatusOnly,
        }
    }

    /// The write a status change needs.
    pub fn update(self) -> (r: SortieStatusUpdate)
        ensures
            r == self.spec_update(),
    {
        match self {
            SortieStatus::Uploaded => SortieStatusUpdate::Uploaded,
            SortieStatus::Executing => SortieStatusUpdate::Started,
            SortieStatus::Complete => SortieStatusUpdate::Ended,
            SortieStatus::Failed | SortieStatus::Aborted => SortieStatusUpdate::EndedWithReason,
            SortieStatus::Pending => SortieStatusUpdate::StatusOnly,
        }
    }
}

pub open spec fn step_type_text(t: StepType) -> Seq<char> {
    match t {
        StepType::Takeoff => "Takeoff"@,
        StepType::Transit => "Transit"@,
        StepType::SprayPass => "SprayPass"@,
        StepType::RefillApproach => "RefillApproach"@,
        StepType::RefillWait => "RefillWait"@,
        StepType::ReturnToBase => "ReturnToBase"@,
        StepType::Land => "Land"@,
    }
}

pub open spec fn step_type_parse(s: Seq<char>) -> Option<StepType> {
    if s == "Takeoff"@ {
        Some(StepType::Takeoff)
    } else if s == "Transit"@ {
        Some(StepType::Transit)
    } else if s == "SprayPass"@ {
        Some(StepType::SprayPass)
    } else if s == "RefillApproach"@ {
        Some(StepType::RefillApproach)
    } else if s == "RefillWait"@ {
        Some(StepType::RefillWait)
    } else if s == "ReturnToBase"@ {
        Some(StepType::ReturnToBase)
    } else if s == "Land"@ {
        Some(StepType::Land)
    } else {
        None
    }
}

/// The stored name of a step type.
pub fn step_type_str(t: StepType) -> (r: &'static str)
    ensures
        r@ == step_type_text(t),
{
    match t {
        StepType::Takeoff => "Takeoff",
        StepType::Transit => "Transit",
        StepType::SprayPass => "SprayPass",
        StepType::RefillApproach => "RefillApproach",
        StepType::RefillWait => "RefillWait",
        StepType::ReturnToBase => "ReturnToBase",
        StepType::Land => "Land",
    }
}

/// Reads a stored step type; an unknown name gives the decode message
/// `unknown step_type: <name>`.
pub fn parse_step_type(s: &str) -> (r: Result<StepType, String>)
    ensures
        match step_type_parse(s@) {
            Some(t) => r == Ok::<StepType, String>(t),
            None => r is Err && r->Err_0@ == "unknown step_type: "@ + s@,
        },
{
    if str_eq(s, "Takeoff") {
        Ok(StepType::Takeoff)
    } else if str_eq(s, "Transit") {
        Ok(StepType::Transit)
    } else if str_eq(s, "SprayPass") {
        Ok(StepType::SprayPass)
    } else if str_eq(s, "RefillApproach") {
        Ok(StepType::RefillApproach)
    } else if str_eq(s, "RefillWait") {
        Ok(StepType::RefillWait)
    } else if str_eq(s, "ReturnToBase") {
        Ok(StepType::ReturnToBase)
    } else if str_eq(s, "Land") {
        Ok(StepType::Land)
    } else {
        Err(joined("unknown step_type: ", s))
    }
}

/// Reading back a stored step type gives the same step type.
pub proof fn lemma_step_type_round_trip(t: StepType)
    ensures
        step_type_parse(step_type_text(t)) == Some(t),
{
    reveal_strlit("Takeoff");
    reveal_strlit("Transit");
    reveal_strlit("SprayPass");
    reveal_strlit("RefillApproach");
    reveal_strlit("RefillWait");
    reveal_strlit("ReturnToBase");
    reveal_strlit("Land");
    assert("Takeoff"@.len() == 7 && "Takeoff"@[1] == 'a');
    assert("Transit"@.len() == 7 && "Transit"@[1] == 'r');
    assert("SprayPass"@.len() == 9);
    assert("RefillApproach"@.len() == 14);
    assert("RefillWait"@.len() == 10);
    assert("ReturnToBase"@.len() == 12);
    assert("Land"@.len() == 4);
}

pub open spec fn behaviour_text(b: RadioLossBehaviour) -> Seq<char> {
    match b {
        RadioLossBehaviour::Continue => "Continue"@,
        RadioLossBehaviour::HoldThenRtl => "HoldThenRtl"@,
        RadioLossBehaviour::RtlImmediately => "RtlImmediately"@,
    }
}

pub open spec fn behaviour_parse(s: Seq<char>) -> Option<RadioLossBehaviour> {
    if s == "Continue"@ {
        Some(RadioLossBehaviour::Continue)
    } else if s == "HoldThenRtl"@ {
        Some(RadioLossBehaviour::HoldThenRtl)
    } else if s == "RtlImmediately"@ {
        Some(RadioLossBehaviour::RtlImmediately)
    } else {
        None
    }
}

/// The stored name of a radio-loss behaviour.
pub fn behaviour_str(b: RadioLossBehaviour) -> (r: &'static str)
    ensures
        r@ == behaviour_text(b),
{
    match b {
        RadioLossBehaviour::Continue => "Continue",
        RadioLossBehaviour::HoldThenRtl => "HoldThenRtl",
        RadioLossBehaviour::RtlImmediately => "RtlImmediately",
    }
}

/// Reads a stored radio-loss behaviour; an unknown name gives the decode
/// message `unknown radio_loss_behaviour: <name>`.
pub fn parse_behaviour(s: &str) -> (r: Result<RadioLossBehaviour, String>)
    ensures
        match behaviour_parse(s@) {
            Some(b) => r == Ok::<RadioLossBehaviour, String>(b),
            None => r is Err && r->Err_0@ == "unknown radio_loss_behaviour: "@ + s@,
        },
{
    if str_eq(s, "Continue") {
        Ok(RadioLossBehaviour::Continue)
    } else if str_eq(s, "HoldThenRtl") {
        Ok(RadioLossBehaviour::HoldThenRtl)
    } else if str_eq(s, "RtlImmediately") {
        Ok(RadioLossBehaviour::RtlImmediately)
    } else {
        Err(joined("unknown radio_loss_behaviour: ", s))
    }
}

/// Reading back a stored behaviour gives the same behaviour.
pub proof fn lemma_behaviour_round_trip(b: RadioLossBehaviour)
    ensures
        behaviour_parse(behaviour_text(b)) == Some(b),
{
    reveal_strlit("Continue");
    reveal_strlit("HoldThenRtl");
    reveal_strlit("RtlImmediately");
    assert("Continue"@.len() == 8);
    assert("HoldThenRtl"@.len() == 11);
    assert("RtlImmediately"@.len() == 14);
}

/// An integer column read back as a `u32`: values outside `u32` read as 0.
pub open spec fn u32_or_zero(v: int) -> u32 {
    if 0 <= v <= u32::MAX {
        v as u32
    } else {
        0
    }
}

pub fn column_u32(v: i64) -> (r: u32)
    ensures
        r == u32_or_zero(v as int),
{
    if 0 <= v && v <= 0xffff_ffff {
        v as u32
    } else {
        0
    }
}

/// Each step type is stored under its variant name.
pub proof fn lemma_step_type_names()
    ensures
        step_type_text(StepType::Takeoff) == "Takeoff"@,
        step_type_text(StepType::Transit) == "Transit"@,
        step_type_text(StepType::SprayPass) == "SprayPass"@,
        step_type_text(StepType::RefillApproach) == "RefillApproach"@,
        step_type_text(StepType::RefillWait) == "RefillWait"@,
        step_type_text(StepType::ReturnToBase) == "ReturnToBase"@,
        step_type_text(StepType::Land) == "Land"@,
{
}

/// Each step type's name reads back as that step type.
pub proof fn lemma_step_type_parses_names()
    ensures
        step_type_parse("Takeoff"@) == Some(StepType::Takeoff),
        step_type_parse("Transit"@) == Some(StepType::Transit),
        step_type_parse("SprayPass"@) == Some(StepType::SprayPass),
        step_type_parse("RefillApproach"@) == Some(StepType::RefillApproach),
        step_type_parse("RefillWait"@) == Some(StepType::RefillWait),
        step_type_parse("ReturnToBase"@) == Some(StepType::ReturnToBase),
        step_type_parse("Land"@) == Some(StepType::Land),
{
    lemma_step_type_round_trip(StepType::Takeoff);
    lemma_step_type_round_trip(StepType::Transit);
    lemma_step_type_round_trip(StepType::SprayPass);
    lemma_step_type_round_trip(StepType::RefillApproach);
    lemma_step_type_round_trip(StepType::RefillWait);
    lemma_step_type_round_trip(StepType::ReturnToBase);
    lemma_step_type_round_trip(StepType::Land);
}

/// Only step type names are accepted: text that parses names the step
/// type it parses to.
pub proof fn lemma_step_type_parse_only_names(text: Seq<char>)
    ensures
        step_type_parse(text) matches Some(t) ==> text == step_type_text(t),
{
}

/// Each radio-loss behaviour is stored under its variant name.
pub proof fn lemma_behaviour_names()
    ensures
        behaviour_text(RadioLossBehaviour::Continue) == "Continue"@,
        behaviour_text(RadioLossBehaviour::HoldThenRtl) == "HoldThenRtl"@,
        behaviour_text(RadioLossBehaviour::RtlImmediately) == "RtlImmediately"@,
{
}

/// Each behaviour's name reads back as that behaviour.
pub proof fn lemma_behaviour_parses_names()
    ensures
        behaviour_parse("Continue"@) == Some(RadioLossBehaviour::Continue),
        behaviour_parse("HoldThenRtl"@) == Some(RadioLossBehaviour::HoldThenRtl),
        behaviour_parse("RtlImmediately"@) == Some(RadioLossBehaviour::RtlImmediately),
{
    lemma_behaviour_round_trip(RadioLossBehaviour::Continue);
    lemma_behaviour_round_trip(RadioLossBehaviour::HoldThenRtl);
    lemma_behaviour_round_trip(RadioLossBehaviour::RtlImmediately);
}

/// Only behaviour names are accepted: text that parses names the
/// behaviour it parses to.
pub proof fn lemma_behaviour_parse_only_names(text: Seq<char>)
    ensures
        behaviour_parse(text) matches Some(b) ==> text == behaviour_text(b),
{
}

/// Which lifecycle timestamp a status change stamps: an upload stamps
/// `uploaded_at`, the start of execution `started_at`, and the completion
/// `ended_at`; a failure or an abort stamps `ended_at` and records its
/// reason; a return to `Pending` writes the status alone.
pub proof fn lemma_sortie_status_updates(st: SortieStatus)
    ensures
        st is Uploaded ==> st.spec_update() is Uploaded,
        st is Executing ==> st.spec_update() is Started,
        st is Complete ==> st.spec_update() is Ended,
        (st is Failed || st is Aborted) <==> st.spec_update() is EndedWithReason,
        st is Pending ==> st.spec_update() is StatusOnly,
{
}

} // verus!
