//! Plan persistence vocabulary: the body hash and the shape of status
//! updates.

use sha2::Digest;
use vstd::prelude::*;
use vstd::string::StringSliceAdditionalSpecFns;

use crate::domain::plan::PlanStatus;
use crate::domain::uuid_text::hex_digit;

verus! {

/// The SHA-256 digest of a byte string (`sha2::Sha256`).
pub uninterp spec fn sha256(data: Seq<u8>) -> Seq<u8>;

/// `sha2::Sha256::digest`: the 32-byte SHA-256 digest of `data`.
#[verifier::external_body]
fn sha256_digest(data: &[u8]) -> (r: Vec<u8>)
    ensures
        r@ == sha256(data@),
        r@.len() == 32,
{
    sha2::Sha256::digest(data).to_vec()
}

/// Lowercase hexadecimal text of a byte string, two digits per byte, high
/// nibble first.
pub open spec fn hex_lower(data: Seq<u8>) -> Seq<char> {
    Seq::new(
        2 * data.len(),
        |i: int|
            if i % 2 == 0 {
                hex_digit(data[i / 2] as int / 16)
            } else {
                hex_digit(data[i / 2] as int % 16)
            },
    )
}

/// `hex::encode`: the lowercase hexadecimal text of `data` (each byte as
/// its high nibble then its low nibble, from the table `0123456789abcdef`).
#[verifier::external_body]
fn hex_encode(data: &[u8]) -> (r: String)
    ensures
        r@ == hex_lower(data@),
{
    hex::encode(data)
}

/// The hash stored with a plan body: the lowercase hex SHA-256 of its UTF-8
/// bytes.
pub fn sha256_hex(s: &str) -> (r: String)
    ensures
        r@ == hex_lower(sha256(s.spec_bytes())),
        r@.len() == 64,
{
    let digest = sha256_digest(s.as_bytes());
    hex_encode(digest.as_slice())
}

/// Every character of a body hash is a lowercase hexadecimal digit.
pub proof fn lemma_hex_lower_alphabet(data: Seq<u8>, i: int)
    requires
        0 <= i < hex_lower(data).len(),
    ensures
        ('0' <= hex_lower(data)[i] <= '9') || ('a' <= hex_lower(data)[i] <= 'f'),
{
    let b = data[i / 2] as int;
    assert(0 <= b / 16 < 16 && 0 <= b % 16 < 16);
}

/// How a plan status change is written: which lifecycle timestamp it
/// stamps.
#[derive(Debug, Clone, Copy, PartialEq, Eq, Structural)]
pub enum PlanStatusUpdate {
    /// `Approved`: stamps `approved_at` and records the approver.
    Approval,
    /// `Executing`: stamps `started_at`.
    Start,
    /// `Complete`, `Failed` or `Aborted`: stamps `completed_at`.
    Completion,
    /// Any other status: the status column only.
    StatusOnly,
}

impl PlanStatus {
    /// The write a change to this status needs.
    pub open spec fn spec_update(self) -> PlanStatusUpdate {
        match self {
            PlanStatus::Approved => PlanStatusUpdate::Approval,
            PlanStatus::Executing => PlanStatusUpdate::Start,
            PlanStatus::Complete | PlanStatus::Failed | PlanStatus::Aborted =>
                PlanStatusUpdate::Completion,
            _ => PlanStatusUpdate::StatusOnly,
        }
    }

    /// The write a status change needs.
    pub fn update(self) -> (r: PlanStatusUpdate)
        ensures
            r == self.spec_update(),
    {
        match self {
            PlanStatus::Approved => PlanStatusUpdate::Approval,
            PlanStatus::Executing => PlanStatusUpdate::Start,
            PlanStatus::Complete | PlanStatus::Failed | PlanStatus::Aborted =>
                PlanStatusUpdate::Completion,
            _ => PlanStatusUpdate::StatusOnly,
        }
    }
}

} // verus!
