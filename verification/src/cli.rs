//! Command-line vocabulary of the `hivemind` binary. Paths are text.

use vstd::prelude::*;

verus! {

/// The parsed command line.
#[derive(Debug)]
pub struct Cli {
    /// Path to the oracle.toml config file.
    pub config: Option<String>,
    pub command: Command,
}

#[derive(Debug)]
pub enum Command {
    /// Run the oracle daemon.
    Serve(ServeArgs),
    /// Upload an intent file and create a plan.
    Plan(PlanArgs),
    /// Approve a plan and start the apply phase.
    Apply(StubArgs),
    /// Show fleet status and the active plan summary.
    Status(StubArgs),
    /// Abort the active plan.
    Abort(StubArgs),
    /// Tail the audit log.
    Audit(StubArgs),
}

/// Arguments of the subcommands that talk to a running daemon.
#[derive(Debug)]
pub struct StubArgs {
    /// Daemon URL.
    pub daemon_url: String,
}

/// Arguments of `plan`.
#[derive(Debug)]
pub struct PlanArgs {
    /// Intent JSON file produced by pantheon.
    pub intent: String,
    /// Drone id to assign the plan to.
    pub drone: String,
}

/// Arguments of `serve`.
#[derive(Debug)]
pub struct ServeArgs {}

impl Command {
    /// Whether the subcommand is implemented in this version (`serve` and
    /// `plan`); the others are stubs that refuse to run.
    pub fn is_implemented(&self) -> (r: bool)
        ensures
            r == (self is Serve || self is Plan),
    {
        match self {
            Command::Serve(_) | Command::Plan(_) => true,
            _ => false,
        }
    }
}

} // verus!
