//! Legion link vocabulary: errors of the link surface, command authority
//! tokens, Hello admission and envelope clock readings.

pub mod authority;
pub mod server;
pub mod session;

use vstd::prelude::*;

verus! {

#[verifier::external_type_specification]
#[verifier::external_body]
pub struct ExIoError(std::io::Error);

/// Errors returned by the link surface.
#[derive(Debug)]
pub enum LinkError {
    DroneNotConnected(String),
    Send(String),
    Recv(String),
    Closed,
    Io(std::io::Error),
}

} // verus!
