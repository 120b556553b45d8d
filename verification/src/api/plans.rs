//! Plan endpoint bodies and checks.

use vstd::prelude::*;
use vstd::string::*;

use crate::domain::plan::{plan_status_parse, plan_status_text, PlanId, PlanStatus};
use crate::domain::uuid_text::uuid_text_value;
use crate::error::ApiError;
use crate::text::{joined, decimal, decimal_text, owned};

verus! {

/// Body of `POST /v1/plans`.
#[derive(Debug, Clone)]
pub struct CreatePlanRequest {
    pub intent_id: String,
}

/// Query of `GET /v1/plans`.
#[derive(Debug, Clone)]
pub struct ListPlansQuery {
    pub status: Option<String>,
    pub limit: i64,
}

/// The number of plans listed when the query names no limit.
pub fn default_limit() -> (r: i64)
    ensures
        r == 50,
{
    50
}

/// Answer of approve and abort.
#[derive(Debug, Clone)]
pub struct ApproveResponse {
    pub plan_id: String,
    pub status: PlanStatus,
}

/// Body of the per-step gate endpoints.
#[derive(Debug, Clone)]
pub struct StepGateBody {
    pub reason: Option<String>,
}

impl Default for StepGateBody {
    fn default() -> (r: StepGateBody)
        ensures
            r.reason is None,
    {
        StepGateBody { reason: None }
    }
}

/// Query of `GET /v1/audit`.
#[derive(Debug, Clone)]
pub struct AuditQuery {
    pub since: Option<String>,
    pub limit: i64,
}

/// The number of audit entries listed when the query names no limit.
pub fn default_audit_limit() -> (r: i64)
    ensures
        r == 200,
{
    200
}

/// An intent without regions is refused before it is stored.
pub fn check_intent_regions(region_count: usize) -> (r: Result<(), ApiError>)
    ensures
        region_count == 0 ==> (r matches Err(ApiError::BadRequest(m)) && m@
            == "intent has no regions"@),
        region_count > 0 ==> r is Ok,
{
    if region_count == 0 {
        return Err(ApiError::BadRequest(owned("intent has no regions")));
    }
    Ok(())
}

/// The status filter of a plan listing: absent lists every plan; an
/// unknown status name is a bad request carrying the parse message.
pub fn parse_status_filter(status: Option<&str>) -> (r: Result<Option<PlanStatus>, ApiError>)
    ensures
        match status {
            None => r == Ok::<Option<PlanStatus>, ApiError>(None),
            Some(s) => match plan_status_parse(s@) {
                Some(st) => r == Ok::<Option<PlanStatus>, ApiError>(Some(st)),
                None => r matches Err(ApiError::BadRequest(m)) && m@ == "unknown plan status: "@
                    + s@,
            },
        },
{
    match status {
        None => Ok(None),
        Some(s) => match PlanStatus::parse(s) {
            Ok(st) => Ok(Some(st)),
            Err(m) => Err(ApiError::BadRequest(m)),
        },
    }
}

/// A plan id taken from a path: anything but UUID text is a bad request.
pub fn parse_plan_id_param(id: &str) -> (r: Result<PlanId, ApiError>)
    ensures
        match uuid_text_value(id@) {
            Some(v) => r == Ok::<PlanId, ApiError>(PlanId(v)),
            None => r matches Err(ApiError::BadRequest(m)) && m@ == "invalid plan id: "@ + id@,
        },
{
    match PlanId::parse(id) {
        Ok(p) => Ok(p),
        Err(_) => Err(ApiError::BadRequest(joined("invalid plan id: ", id))),
    }
}

/// `s` without its leading and trailing double quotes.
pub open spec fn trim_quotes(s: Seq<char>) -> Seq<char>
    decreases s.len(),
{
    if s.len() > 0 && s[0] == '"' {
        trim_quotes(s.drop_first())
    } else if s.len() > 0 && s.last() == '"' {
        trim_quotes(s.drop_last())
    } else {
        s
    }
}

/// Every character of `s` before `i` and from `j` on is a `"`.
pub open spec fn quotes_outside(s: Seq<char>, i: int, j: int) -> bool {
    &&& forall|k: int| 0 <= k < i ==> #[trigger] s[k] == '"'
    &&& forall|k: int| j <= k < s.len() ==> #[trigger] s[k] == '"'
}

/// Stripping the quote marks keeps a middle part of the text, from `r.0`
/// up to `r.1`: everything cut before it and after it is a `"`, and what is
/// kept neither starts nor ends with one.
pub proof fn lemma_trim_quotes_keeps_the_middle(s: Seq<char>) -> (r: (int, int))
    ensures
        0 <= r.0 <= r.1 <= s.len(),
        trim_quotes(s) == s.subrange(r.0, r.1),
        quotes_outside(s, r.0, r.1),
        trim_quotes(s).len() > 0 ==> trim_quotes(s)[0] != '"' && trim_quotes(s).last() != '"',
    decreases s.len(),
{
    if s.len() > 0 && s[0] == '"' {
        let t = s.drop_first();
        let (i, j) = lemma_trim_quotes_keeps_the_middle(t);
        assert(t.subrange(i, j) =~= s.subrange(i + 1, j + 1));
        assert forall|k: int| 0 <= k < i + 1 implies #[trigger] s[k] == '"' by {
            if k > 0 {
                assert(s[k] == t[k - 1]);
            }
        }
        assert forall|k: int| j + 1 <= k < s.len() implies #[trigger] s[k] == '"' by {
            assert(s[k] == t[k - 1]);
        }
        (i + 1, j + 1)
    } else if s.len() > 0 && s.last() == '"' {
        let t = s.drop_last();
        let (i, j) = lemma_trim_quotes_keeps_the_middle(t);
        assert(t.subrange(i, j) =~= s.subrange(i, j));
        assert forall|k: int| 0 <= k < i implies #[trigger] s[k] == '"' by {
            assert(s[k] == t[k]);
        }
        assert forall|k: int| j <= k < s.len() implies #[trigger] s[k] == '"' by {
            if k < s.len() - 1 {
                assert(s[k] == t[k]);
            }
        }
        (i, j)
    } else {
        assert(s.subrange(0, s.len() as int) =~= s);
        (0, s.len() as int)
    }
}

/// Strips every leading and trailing `"` (as `str::trim_matches('"')`).
pub fn trim_quote_marks(s: &str) -> (r: String)
    ensures
        r@ == trim_quotes(s@),
{
    let n = s.unicode_len();
    let mut lo: usize = 0;
    assert(s@.subrange(0, n as int) =~= s@);
    while lo < n && s.get_char(lo) == '"'
        invariant
            n == s@.len(),
            lo <= n,
            trim_quotes(s@) == trim_quotes(s@.subrange(lo as int, n as int)),
        decreases n - lo,
    {
        assert(s@.subrange(lo as int, n as int).drop_first() =~= s@.subrange(lo + 1, n as int));
        lo = lo + 1;
    }
    let mut hi: usize = n;
    while hi > lo && s.get_char(hi - 1) == '"'
        invariant
            n == s@.len(),
            lo <= hi <= n,
            lo < hi ==> s@[lo as int] != '"',
            trim_quotes(s@) == trim_quotes(s@.subrange(lo as int, hi as int)),
        decreases hi - lo,
    {
        let ghost sub = s@.subrange(lo as int, hi as int);
        assert(sub.drop_last() =~= s@.subrange(lo as int, hi - 1));
        assert(sub[0] == s@[lo as int]);
        hi = hi - 1;
    }
    let r = owned(s.substring_char(lo, hi));
    r
}

/// The If-Match and status preconditions of an approval: an If-Match
/// header (quotes stripped) must equal the plan's body hash, and the plan
/// must be `Proposed`.
pub fn check_approval_preconditions(
    id: &str,
    current: PlanStatus,
    body_hash: &str,
    if_match: Option<&str>,
) -> (r: Result<(), ApiError>)
    ensures
        match if_match {
            Some(h) if trim_quotes(h@) != body_hash@ => r matches Err(
                ApiError::PreconditionFailed(m),
            ) && m@ == "If-Match mismatch: header="@ + trim_quotes(h@) + ", current="@
                + body_hash@,
            _ => if current != PlanStatus::Proposed {
                r matches Err(ApiError::Conflict(m)) && m@ == "plan "@ + id@ + " is in "@
                    + plan_status_text(current) + ", can only approve from Proposed"@
            } else {
                r is Ok
            },
        },
{
    if let Some(h) = if_match {
        let trimmed = trim_quote_marks(h);
        let hash = owned(body_hash);
        if trimmed != hash {
            let mut m = joined("If-Match mismatch: header=", trimmed.as_str());
            m.append(", current=");
            m.append(body_hash);
            return Err(ApiError::PreconditionFailed(m));
        }
    }
    if current != PlanStatus::Proposed {
        let mut m = joined("plan ", id);
        m.append(" is in ");
        m.append(current.as_str());
        m.append(", can only approve from Proposed");
        return Err(ApiError::Conflict(m));
    }
    Ok(())
}

/// A plan with blocking errors cannot be approved.
pub fn check_no_blocking_errors(id: &str, error_count: usize) -> (r: Result<(), ApiError>)
    ensures
        error_count == 0 ==> r is Ok,
        error_count > 0 ==> (r matches Err(ApiError::BadRequest(m)) && m@ == "plan "@ + id@
            + " has "@ + decimal_text(error_count as nat) + " blocking errors"@),
{
    if error_count == 0 {
        return Ok(());
    }
    let mut m = joined("plan ", id);
    m.append(" has ");
    let count = decimal(error_count as u64);
    m.append(count.as_str());
    m.append(" blocking errors");
    Err(ApiError::BadRequest(m))
}

} // verus!
