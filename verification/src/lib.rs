//! Oracle — the truck-side orchestrator of a Hivemind drone swarm.
//!
//! This crate holds the decision logic of the oracle: the plan and sortie
//! codecs, the slicer's discrete stages, the step-confirmation handshake
//! and the apply supervisor as explicit state machines, the legion Hello
//! admission rule, API error mapping and configuration defaults.

pub mod apply;
pub mod api;
pub mod cli;
pub mod config;
pub mod domain;
pub mod error;
pub mod fleet;
pub mod legion_link;
pub mod protocol;
pub mod slicer;
pub mod store;
pub mod text;
