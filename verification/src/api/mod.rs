//! HTTP API vocabulary: request and response bodies and the decisions the
//! handlers make before touching the store.

pub mod approval;
pub mod plans;
