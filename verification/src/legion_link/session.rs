//! Clock readings for link envelopes.

use vstd::prelude::*;

verus! {

#[verifier::external_type_specification]
#[verifier::external_body]
pub struct ExSystemTime(std::time::SystemTime);

/// `std::time::SystemTime::now`. Nothing is claimed of the value.
#[verifier::external_body]
fn system_now() -> std::time::SystemTime {
    std::time::SystemTime::now()
}

/// `SystemTime::duration_since(UNIX_EPOCH)`: the time elapsed since the
/// Unix epoch, or `None` for a time before it. Nothing is claimed of the
/// value.
#[verifier::external_body]
fn since_unix_epoch(t: std::time::SystemTime) -> Option<std::time::Duration> {
    match t.duration_since(std::time::UNIX_EPOCH) {
        Ok(d) => Some(d),
        Err(_) => None,
    }
}

/// `Duration::as_millis`. Nothing is claimed of the value.
#[verifier::external_body]
fn duration_millis(d: std::time::Duration) -> u128 {
    d.as_millis()
}

/// Milliseconds since the epoch as a `u64`: saturating above `u64::MAX`,
/// and 0 for a clock before the epoch.
pub fn millis_as_u64(ms: Option<u128>) -> (r: u64)
    ensures
        r == match ms {
            Some(m) => if m <= u64::MAX {
                m as u64
            } else {
                u64::MAX
            },
            None => 0u64,
        },
{
    match ms {
        Some(m) => {
            if m <= 0xffff_ffff_ffff_ffff {
                m as u64
            } else {
                0xffff_ffff_ffff_ffff
            }
        },
        None => 0,
    }
}

/// The wall clock in milliseconds since the Unix epoch.
pub fn now_ms() -> u64 {
    let ms = match since_unix_epoch(system_now()) {
        Some(d) => Some(duration_millis(d)),
        None => None,
    };
    millis_as_u64(ms)
}

} // verus!
