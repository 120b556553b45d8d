//! Plan status, warning and error vocabularies.

use vstd::prelude::*;

use crate::domain::uuid_text::{nibble, uuid_hyphenated, uuid_text_value};
use crate::text::{joined, str_eq};

verus! {

/// A plan id: the 128-bit value of a version-7 UUID, so ids sort by
/// creation time.
#[derive(Debug, Clone, Copy, PartialEq, Eq, Hash, Structural)]
pub struct PlanId(pub u128);

#[verifier::external_type_specification]
#[verifier::external_body]
pub struct ExUuidError(uuid::Error);

/// `uuid::Uuid::now_v7`: a version-7 UUID built from the current time and
/// random bits. Claimed: its version digit (the 13th hex digit) is 7 and
/// its variant is RFC 4122 (the 17th digit is one of 8, 9, a, b). The time
/// and random bits, and the ordering of successive ids, are not stated.
#[verifier::external_body]
pub(crate) fn uuid_now_v7() -> (r: u128)
    ensures
        nibble(r, 12) == 7,
        nibble(r, 16) / 4 == 2,
{
    uuid::Uuid::now_v7().as_u128()
}

/// The `Display` form of `uuid::Uuid`: the lowercase hyphenated text of the
/// value (as `uuid`'s `format_hyphenated` writes it).
#[verifier::external_body]
pub(crate) fn uuid_to_text(v: u128) -> (r: String)
    ensures
        r@ == uuid_hyphenated(v),
{
    uuid::Uuid::from_u128(v).to_string()
}

/// `uuid::Uuid::parse_str`: succeeds exactly on the shapes its parser
/// accepts (simple, hyphenated, braced, URN; hex digits of either case) and
/// gives the value they denote.
#[verifier::external_body]
pub(crate) fn uuid_parse(s: &str) -> (r: Result<u128, uuid::Error>)
    ensures
        match uuid_text_value(s@) {
            Some(v) => r == Ok::<u128, uuid::Error>(v),
            None => r is Err,
        },
{
    match uuid::Uuid::parse_str(s) {
        Ok(u) => Ok(u.as_u128()),
        Err(e) => Err(e),
    }
}

impl PlanId {
    /// A fresh version-7 id from the current time.
    pub fn new() -> (r: PlanId)
        ensures
            nibble(r.0, 12) == 7,
            nibble(r.0, 16) / 4 == 2,
    {
        PlanId(uuid_now_v7())
    }

    /// The hyphenated lowercase text of the id.
    pub fn to_string(&self) -> (r: String)
        ensures
            r@ == uuid_hyphenated(self.0),
    {
        uuid_to_text(self.0)
    }

    /// Parses any UUID text form.
    pub fn parse(s: &str) -> (r: Result<PlanId, uuid::Error>)
        ensures
            match uuid_text_value(s@) {
                Some(v) => r == Ok::<PlanId, uuid::Error>(PlanId(v)),
                None => r is Err,
            },
    {
        match uuid_parse(s) {
            Ok(v) => Ok(PlanId(v)),
            Err(e) => Err(e),
        }
    }
}

impl Default for PlanId {
    /// A fresh version-7 id, as `PlanId::new` gives.
    fn default() -> (r: PlanId)
        ensures
            nibble(r.0, 12) == 7,
            nibble(r.0, 16) / 4 == 2,
    {
        PlanId::new()
    }
}

impl std::str::FromStr for PlanId {
    type Err = uuid::Error;

    fn from_str(s: &str) -> (r: Result<PlanId, uuid::Error>)
        ensures
            match uuid_text_value(s@) {
                Some(v) => r == Ok::<PlanId, uuid::Error>(PlanId(v)),
                None => r is Err,
            },
    {
        PlanId::parse(s)
    }
}

/// Lifecycle status of a plan.
#[derive(Debug, Clone, Copy, PartialEq, Eq, Structural)]
pub enum PlanStatus {
    Draft,
    Proposed,
    Approved,
    Executing,
    Paused,
    Aborted,
    Complete,
    Failed,
}

/// The canonical text of each plan status.
pub open spec fn plan_status_text(s: PlanStatus) -> Seq<char> {
    match s {
        PlanStatus::Draft => "Draft"@,
        PlanStatus::Proposed => "Proposed"@,
        PlanStatus::Approved => "Approved"@,
        PlanStatus::Executing => "Executing"@,
        PlanStatus::Paused => "Paused"@,
        PlanStatus::Aborted => "Aborted"@,
        PlanStatus::Complete => "Complete"@,
        PlanStatus::Failed => "Failed"@,
    }
}

impl PlanStatus {
    pub fn as_str(self) -> (r: &'static str)
        ensures
            r@ == plan_status_text(self),
    {
        match self {
            PlanStatus::Draft => "Draft",
            PlanStatus::Proposed => "Proposed",
            PlanStatus::Approved => "Approved",
            PlanStatus::Executing => "Executing",
            PlanStatus::Paused => "Paused",
            PlanStatus::Aborted => "Aborted",
            PlanStatus::Complete => "Complete",
            PlanStatus::Failed => "Failed",
        }
    }
}


/// The status named by `text`, if any.
pub open spec fn plan_status_parse(text: Seq<char>) -> Option<PlanStatus> {
    if text == "Draft"@ {
        Some(PlanStatus::Draft)
    } else if text == "Proposed"@ {
        Some(PlanStatus::Proposed)
    } else if text == "Approved"@ {
        Some(PlanStatus::Approved)
    } else if text == "Executing"@ {
        Some(PlanStatus::Executing)
    } else if text == "Paused"@ {
        Some(PlanStatus::Paused)
    } else if text == "Aborted"@ {
        Some(PlanStatus::Aborted)
    } else if text == "Complete"@ {
        Some(PlanStatus::Complete)
    } else if text == "Failed"@ {
        Some(PlanStatus::Failed)
    } else {
        None
    }
}

impl PlanStatus {
    /// Parses a status name; an unknown name gives the message
    /// `unknown plan status: <text>`.
    pub fn parse(s: &str) -> (r: Result<PlanStatus, String>)
        ensures
            match plan_status_parse(s@) {
                Some(st) => r == Ok::<PlanStatus, String>(st),
                None => r is Err && r->Err_0@ == "unknown plan status: "@ + s@,
            },
    {
        if str_eq(s, "Draft") {
            Ok(PlanStatus::Draft)
        } else if str_eq(s, "Proposed") {
            Ok(PlanStatus::Proposed)
        } else if str_eq(s, "Approved") {
            Ok(PlanStatus::Approved)
        } else if str_eq(s, "Executing") {
            Ok(PlanStatus::Executing)
        } else if str_eq(s, "Paused") {
            Ok(PlanStatus::Paused)
        } else if str_eq(s, "Aborted") {
            Ok(PlanStatus::Aborted)
        } else if str_eq(s, "Complete") {
            Ok(PlanStatus::Complete)
        } else if str_eq(s, "Failed") {
            Ok(PlanStatus::Failed)
        } else {
            Err(joined("unknown plan status: ", s))
        }
    }
}

impl std::str::FromStr for PlanStatus {
    type Err = String;

    fn from_str(s: &str) -> (r: Result<PlanStatus, String>)
        ensures
            match plan_status_parse(s@) {
                Some(st) => r == Ok::<PlanStatus, String>(st),
                None => r is Err && r->Err_0@ == "unknown plan status: "@ + s@,
            },
    {
        PlanStatus::parse(s)
    }
}

/// Reading back the text of a status gives the same status.
pub proof fn lemma_plan_status_round_trip(s: PlanStatus)
    ensures
        plan_status_parse(plan_status_text(s)) == Some(s),
{
    reveal_strlit("Draft");
    reveal_strlit("Proposed");
    reveal_strlit("Approved");
    reveal_strlit("Executing");
    reveal_strlit("Paused");
    reveal_strlit("Aborted");
    reveal_strlit("Complete");
    reveal_strlit("Failed");
    assert("Draft"@.len() == 5);
    assert("Proposed"@.len() == 8 && "Proposed"@[0] == 'P');
    assert("Approved"@.len() == 8 && "Approved"@[0] == 'A');
    assert("Executing"@.len() == 9);
    assert("Paused"@.len() == 6 && "Paused"@[0] == 'P');
    assert("Aborted"@.len() == 7);
    assert("Complete"@.len() == 8 && "Complete"@[0] == 'C');
    assert("Failed"@.len() == 6 && "Failed"@[0] == 'F');
}

/// Each plan status is stored and shown under its own variant name.
pub proof fn lemma_plan_status_names()
    ensures
        plan_status_text(PlanStatus::Draft) == "Draft"@,
        plan_status_text(PlanStatus::Proposed) == "Proposed"@,
        plan_status_text(PlanStatus::Approved) == "Approved"@,
        plan_status_text(PlanStatus::Executing) == "Executing"@,
        plan_status_text(PlanStatus::Paused) == "Paused"@,
        plan_status_text(PlanStatus::Aborted) == "Aborted"@,
        plan_status_text(PlanStatus::Complete) == "Complete"@,
        plan_status_text(PlanStatus::Failed) == "Failed"@,
{
}

/// Each variant name reads back as that very status.
pub proof fn lemma_plan_status_parses_names()
    ensures
        plan_status_parse("Draft"@) == Some(PlanStatus::Draft),
        plan_status_parse("Proposed"@) == Some(PlanStatus::Proposed),
        plan_status_parse("Approved"@) == Some(PlanStatus::Approved),
        plan_status_parse("Executing"@) == Some(PlanStatus::Executing),
        plan_status_parse("Paused"@) == Some(PlanStatus::Paused),
        plan_status_parse("Aborted"@) == Some(PlanStatus::Aborted),
        plan_status_parse("Complete"@) == Some(PlanStatus::Complete),
        plan_status_parse("Failed"@) == Some(PlanStatus::Failed),
{
    lemma_plan_status_round_trip(PlanStatus::Draft);
    lemma_plan_status_round_trip(PlanStatus::Proposed);
    lemma_plan_status_round_trip(PlanStatus::Approved);
    lemma_plan_status_round_trip(PlanStatus::Executing);
    lemma_plan_status_round_trip(PlanStatus::Paused);
    lemma_plan_status_round_trip(PlanStatus::Aborted);
    lemma_plan_status_round_trip(PlanStatus::Complete);
    lemma_plan_status_round_trip(PlanStatus::Failed);
}

/// Only the status names are accepted: text that parses names the status
/// it parses to.
pub proof fn lemma_plan_status_parse_only_names(text: Seq<char>)
    ensures
        plan_status_parse(text) matches Some(st) ==> text == plan_status_text(st),
{
}

/// How serious a plan warning is.
#[derive(Debug, Clone, Copy, PartialEq, Eq, Structural)]
pub enum PlanWarningSeverity {
    Info,
    Warn,
    Critical,
}

pub open spec fn warning_severity_text(s: PlanWarningSeverity) -> Seq<char> {
    match s {
        PlanWarningSeverity::Info => "info"@,
        PlanWarningSeverity::Warn => "warn"@,
        PlanWarningSeverity::Critical => "critical"@,
    }
}

impl PlanWarningSeverity {
    pub fn as_str(self) -> (r: &'static str)
        ensures
            r@ == warning_severity_text(self),
    {
        match self {
            PlanWarningSeverity::Info => "info",
            PlanWarningSeverity::Warn => "warn",
            PlanWarningSeverity::Critical => "critical",
        }
    }
}

/// What a plan warning is about.
#[derive(Debug, Clone, Copy, PartialEq, Eq, Structural)]
pub enum PlanWarningCode {
    LongDuration,
    NarrowWeatherWindow,
    LowPaintMargin,
    /// A region whose faces do not lie in one plane was split into planar
    /// sub-regions.
    RegionSubdivided,
}

pub open spec fn warning_code_text(c: PlanWarningCode) -> Seq<char> {
    match c {
        PlanWarningCode::LongDuration => "long_duration"@,
        PlanWarningCode::NarrowWeatherWindow => "narrow_weather_window"@,
        PlanWarningCode::LowPaintMargin => "low_paint_margin"@,
        PlanWarningCode::RegionSubdivided => "region_subdivided"@,
    }
}

impl PlanWarningCode {
    pub fn as_str(self) -> (r: &'static str)
        ensures
            r@ == warning_code_text(self),
    {
        match self {
            PlanWarningCode::LongDuration => "long_duration",
            PlanWarningCode::NarrowWeatherWindow => "narrow_weather_window",
            PlanWarningCode::LowPaintMargin => "low_paint_margin",
            PlanWarningCode::RegionSubdivided => "region_subdivided",
        }
    }
}

/// A non-fatal finding of the slicer.
#[derive(Debug, Clone)]
pub struct PlanWarning {
    pub severity: PlanWarningSeverity,
    pub code: PlanWarningCode,
    pub message: String,
}

/// What a blocking plan error is about.
#[derive(Debug, Clone, Copy, PartialEq, Eq, Structural)]
pub enum PlanErrorCode {
    NonPlanarRegion,
    NoRegions,
    NotGeoreferenced,
    NoDronesAvailable,
    UnreachableRegion,
}

pub open spec fn error_code_text(c: PlanErrorCode) -> Seq<char> {
    match c {
        PlanErrorCode::NonPlanarRegion => "non_planar_region"@,
        PlanErrorCode::NoRegions => "no_regions"@,
        PlanErrorCode::NotGeoreferenced => "not_georeferenced"@,
        PlanErrorCode::NoDronesAvailable => "no_drones_available"@,
        PlanErrorCode::UnreachableRegion => "unreachable_region"@,
    }
}

impl PlanErrorCode {
    pub fn as_str(self) -> (r: &'static str)
        ensures
            r@ == error_code_text(self),
    {
        match self {
            PlanErrorCode::NonPlanarRegion => "non_planar_region",
            PlanErrorCode::NoRegions => "no_regions",
            PlanErrorCode::NotGeoreferenced => "not_georeferenced",
            PlanErrorCode::NoDronesAvailable => "no_drones_available",
            PlanErrorCode::UnreachableRegion => "unreachable_region",
        }
    }
}

/// A blocking finding: a plan with any error cannot be approved.
#[derive(Debug, Clone)]
pub struct PlanError {
    pub code: PlanErrorCode,
    pub message: String,
    /// Region id this error refers to, if applicable.
    pub region_id: Option<String>,
}

/// A plan is fit for approval when it carries no blocking error.
pub fn is_approvable(errors: &[PlanError]) -> (r: bool)
    ensures
        r == (errors@.len() == 0),
{
    errors.len() == 0
}

/// Wall-clock view of the plan's execution timeline.
#[derive(Debug, Clone, Copy, PartialEq, Eq, Structural)]
pub struct FleetSchedule {
    pub total_sorties: u32,
    pub total_duration_s: u64,
    pub peak_concurrent_drones: u32,
    pub refill_cycles: u32,
}

/// Warning severities are named in lower case.
pub proof fn lemma_warning_severity_names()
    ensures
        warning_severity_text(PlanWarningSeverity::Info) == "info"@,
        warning_severity_text(PlanWarningSeverity::Warn) == "warn"@,
        warning_severity_text(PlanWarningSeverity::Critical) == "critical"@,
{
}

/// Warning codes are named in snake case.
pub proof fn lemma_warning_code_names()
    ensures
        warning_code_text(PlanWarningCode::LongDuration) == "long_duration"@,
        warning_code_text(PlanWarningCode::NarrowWeatherWindow) == "narrow_weather_window"@,
        warning_code_text(PlanWarningCode::LowPaintMargin) == "low_paint_margin"@,
        warning_code_text(PlanWarningCode::RegionSubdivided) == "region_subdivided"@,
{
}

/// Error codes are named in snake case.
pub proof fn lemma_error_code_names()
    ensures
        error_code_text(PlanErrorCode::NonPlanarRegion) == "non_planar_region"@,
        error_code_text(PlanErrorCode::NoRegions) == "no_regions"@,
        error_code_text(PlanErrorCode::NotGeoreferenced) == "not_georeferenced"@,
        error_code_text(PlanErrorCode::NoDronesAvailable) == "no_drones_available"@,
        error_code_text(PlanErrorCode::UnreachableRegion) == "unreachable_region"@,
{
}

} // verus!
