//! Oracle-side domain types.

pub mod amendment;
pub mod fleet;
pub mod intent;
pub mod plan;
pub mod uuid_text;
