//! Live fleet state and the Layer 2 monitor's tick.

pub mod monitor;
pub mod state;
