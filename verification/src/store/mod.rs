//! Persistence vocabulary: the status and decision names written to the
//! database, the codecs that read them back, and the body hash.

pub mod drones;
pub mod plans;
pub mod sorties;
pub mod steps;

use vstd::prelude::*;

verus! {

#[verifier::external_type_specification]
#[verifier::external_body]
pub struct ExDbError(sqlx::Error);

} // verus!
