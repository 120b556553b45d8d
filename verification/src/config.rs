//! Oracle configuration sections and their defaults. Paths are held as
//! text. The slicer and safety sections carry floating-point settings and
//! stay with the configuration loader.

use vstd::prelude::*;

use crate::text::owned;

verus! {

/// HTTP server settings.
#[derive(Debug, Clone)]
pub struct ServerConfig {
    /// HTTP+WS listen address for the pantheon-facing API.
    pub http_addr: String,
    /// Unix socket path for CLI ↔ daemon communication.
    pub unix_socket: String,
}

impl Default for ServerConfig {
    fn default() -> (r: ServerConfig)
        ensures
            r.http_addr@ == "127.0.0.1:7345"@,
            r.unix_socket@ == "/var/run/oracle/oracle.sock"@,
    {
        ServerConfig {
            http_addr: owned("127.0.0.1:7345"),
            unix_socket: owned("/var/run/oracle/oracle.sock"),
        }
    }
}

/// Storage settings.
#[derive(Debug, Clone)]
pub struct StorageConfig {
    /// Directory holding the SQLite database and any persistent artefacts.
    pub state_dir: String,
}

impl Default for StorageConfig {
    fn default() -> (r: StorageConfig)
        ensures
            r.state_dir@ == "/var/lib/oracle"@,
    {
        StorageConfig { state_dir: owned("/var/lib/oracle") }
    }
}

/// `s` ends with `suffix`.
pub open spec fn ends_with(s: Seq<char>, suffix: Seq<char>) -> bool {
    s.len() >= suffix.len() && s.subrange(s.len() - suffix.len(), s.len() as int) == suffix
}

/// `std::path::Path::join` with a relative, non-empty `name`, whose
/// documentation says that a relative path extends the base. Claimed: the
/// result ends with `name`, and a non-empty `base` that does not end in `/`
/// is followed by one separator and then `name`. What it gives for an
/// empty `base` or one that ends in `/` is not stated.
#[verifier::external_body]
fn join_path(base: &str, name: &str) -> (r: String)
    requires
        name@.len() > 0,
        name@[0] != '/',
    ensures
        ends_with(r@, name@),
        base@.len() > 0 && base@.last() != '/' ==> r@ == base@ + "/"@ + name@,
{
    std::path::Path::new(base).join(name).to_string_lossy().into_owned()
}

impl StorageConfig {
    /// Path of the SQLite database inside the state directory.
    pub fn db_path(&self) -> (r: String)
        ensures
            ends_with(r@, "oracle.db"@),
            self.state_dir@.len() > 0 && self.state_dir@.last() != '/' ==> r@
                == self.state_dir@ + "/oracle.db"@,
    {
        proof {
            reveal_strlit("oracle.db");
            reveal_strlit("/oracle.db");
            reveal_strlit("/");
            assert("/"@ + "oracle.db"@ =~= "/oracle.db"@);
        }
        join_path(self.state_dir.as_str(), "oracle.db")
    }
}

/// Transport of the legion link.
#[derive(Debug, Clone, Copy, PartialEq, Eq, Structural)]
pub enum TransportKind {
    Serial,
    Tcp,
}

/// Legion link settings.
#[derive(Debug, Clone)]
pub struct LegionLinkConfig {
    /// Which transport to use: serial (production) or TCP (SITL/dev).
    pub kind: TransportKind,
    /// Serial port path; only meaningful for the serial transport.
    pub serial_path: String,
    pub serial_baud: u32,
    /// TCP listen address; only meaningful for the TCP transport.
    pub tcp_listen: String,
    /// Drone IDs allowed to connect via the Hello exchange.
    pub allowed_drones: Vec<String>,
    /// Shared bearer token legions present in Hello.
    pub shared_token: String,
    pub heartbeat_to_legion_hz: u32,
    pub legion_heartbeat_timeout_ms: u32,
    /// How long an operator-required gate waits before timing out the plan.
    pub operator_gate_timeout_s: u32,
}

impl Default for LegionLinkConfig {
    fn default() -> (r: LegionLinkConfig)
        ensures
            r.kind == TransportKind::Tcp,
            r.serial_path@ == "/dev/ttyUSB0"@,
            r.serial_baud == 57600,
            r.tcp_listen@ == "0.0.0.0:7346"@,
            r.allowed_drones@.len() == 1,
            r.allowed_drones@[0]@ == "drone-01"@,
            r.shared_token@ == "dev-token"@,
            r.heartbeat_to_legion_hz == 2,
            r.legion_heartbeat_timeout_ms == 3000,
            r.operator_gate_timeout_s == 600,
    {
        let mut allowed_drones: Vec<String> = Vec::new();
        allowed_drones.push(owned("drone-01"));
        LegionLinkConfig {
            kind: TransportKind::Tcp,
            serial_path: owned("/dev/ttyUSB0"),
            serial_baud: 57600,
            tcp_listen: owned("0.0.0.0:7346"),
            allowed_drones,
            shared_token: owned("dev-token"),
            heartbeat_to_legion_hz: 2,
            legion_heartbeat_timeout_ms: 3000,
            operator_gate_timeout_s: 600,
        }
    }
}

/// RTK correction settings.
#[derive(Debug, Clone)]
pub struct RtkConfig {
    pub source: String,
    pub broadcast_hz: u32,
}

impl Default for RtkConfig {
    fn default() -> (r: RtkConfig)
        ensures
            r.source@ == "serial:/dev/ttyUSB-rtk:115200"@,
            r.broadcast_hz == 1,
    {
        RtkConfig { source: owned("serial:/dev/ttyUSB-rtk:115200"), broadcast_hz: 1 }
    }
}

} // verus!
