//! Apply phase — drives sorties through the step-confirmation handshake.

pub mod gate;
pub mod handshake;
pub mod handshake_laws;
pub mod supervisor;
