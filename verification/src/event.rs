//! What the application tells the supervisor, and what the supervisor asks
//! of the application, while a sidecar is being started.

use vstd::prelude::*;
use crate::error::SpawnError;

verus! {

/// What happened outside the supervisor during a spawn attempt. `H` is the
/// handle by which a started process can later be signalled.
#[derive(Debug, PartialEq, Eq)]
pub enum SpawnEvent<H> {
    /// Startup asks for the sidecar that the locator names.
    Requested(String),
    /// The locator resolved to a runnable command.
    Resolved,
    /// The locator did not resolve.
    Unresolved,
    /// The operating system started the process and gave this handle.
    Launched(H),
    /// The operating system did not start the process.
    Refused,
}

/// What the application is to do next in a spawn attempt.
#[derive(Debug, PartialEq, Eq)]
pub enum SpawnStep<H> {
    /// Resolve this locator, then report `Resolved` or `Unresolved`.
    Resolve(String),
    /// Start the resolved command, then report `Launched` or `Refused`.
    Launch,
    /// The attempt is over, with this result.
    Done(Result<(), SpawnError>),
    /// The attempt is over with `AlreadyRunning`: this process was started
    /// while another one was supervised. The supervisor did not take it on;
    /// the application owns the handle and should signal it.
    Surplus(H),
}

impl<H> SpawnStep<H> {
    /// The result of the attempt, once it is over.
    pub open spec fn outcome(self) -> Option<Result<(), SpawnError>> {
        match self {
            SpawnStep::Resolve(_) => None,
            SpawnStep::Launch => None,
            SpawnStep::Done(result) => Some(result),
            SpawnStep::Surplus(_) => Some(Err(SpawnError::AlreadyRunning)),
        }
    }
}

} // verus!
