//! The supervisor: an optional handle and the two operations on it.
//!
//! Both operations take the supervisor by `&mut`, so a call has it to
//! itself. An application that reaches one supervisor from several threads
//! keeps it behind a lock, takes the lock for one call, and lets go of it
//! before it acts on what the call returned.

use vstd::prelude::*;
use crate::error::SpawnError;
use crate::event::{SpawnEvent, SpawnStep};

verus! {

/// Owner of the sidecar's handle. Its view is the handle it holds, if any:
/// `None` while no sidecar is supervised, `Some` while one is running.
pub struct Supervisor<H> {
    handle: Option<H>,
}

impl<H> View for Supervisor<H> {
    type V = Option<H>;

    closed spec fn view(&self) -> Option<H> {
        self.handle
    }
}

/// The handle held after a spawn event, given the handle held before it.
/// Only a launch report that finds the supervisor empty changes anything.
pub open spec fn held_after_spawn<H>(held: Option<H>, event: SpawnEvent<H>) -> Option<H> {
    match event {
        SpawnEvent::Launched(handle) if held is None => Some(handle),
        _ => held,
    }
}

/// The supervisor's answer to a spawn event, given the handle held before it.
///
/// A failure that the application reports ends the attempt with the error
/// that names it. While a sidecar is supervised nothing new is begun, and a
/// process that was started all the same is handed back. On an empty
/// supervisor a request leads to resolving, a resolved locator to launching,
/// and a launched process to success.
pub open spec fn step_after_spawn<H>(held: Option<H>, event: SpawnEvent<H>) -> SpawnStep<H> {
    match event {
        SpawnEvent::Unresolved => SpawnStep::Done(Err(SpawnError::ResolveFailed)),
        SpawnEvent::Refused => SpawnStep::Done(Err(SpawnError::LaunchFailed)),
        SpawnEvent::Launched(handle) if held is Some => SpawnStep::Surplus(handle),
        _ if held is Some => SpawnStep::Done(Err(SpawnError::AlreadyRunning)),
        SpawnEvent::Requested(locator) => SpawnStep::Resolve(locator),
        SpawnEvent::Resolved => SpawnStep::Launch,
        SpawnEvent::Launched(_) => SpawnStep::Done(Ok(())),
    }
}

/// The handle held after `terminate`: none, whatever was held before.
pub open spec fn held_after_terminate<H>(held: Option<H>) -> Option<H> {
    None
}

/// What `terminate` hands to its caller: the handle that was held, if any.
pub open spec fn taken_by_terminate<H>(held: Option<H>) -> Option<H> {
    held
}

impl<H> Supervisor<H> {
    /// A supervisor that holds no handle.
    pub fn new() -> (fresh: Self)
        ensures
            fresh@ is None,
    {
        Supervisor { handle: None }
    }

    /// Whether a sidecar is supervised.
    pub fn is_running(&self) -> (running: bool)
        ensures
            running == (self@ is Some),
    {
        self.handle.is_some()
    }

    /// Takes one event of a spawn attempt and says what comes next.
    ///
    /// An attempt begins with `Requested`. The application does what each
    /// step asks for and reports the outcome in the next call, until a step
    /// ends the attempt. The supervisor starts no process itself and waits
    /// for none; it takes on the handle of a launched process only while it
    /// holds no other.
    #[must_use]
    pub fn spawn(&mut self, event: SpawnEvent<H>) -> (step: SpawnStep<H>)
        ensures
            final(self)@ == held_after_spawn(old(self)@, event),
            step == step_after_spawn(old(self)@, event),
    {
        let running = self.handle.is_some();
        match event {
            SpawnEvent::Unresolved => SpawnStep::Done(Err(SpawnError::ResolveFailed)),
            SpawnEvent::Refused => SpawnStep::Done(Err(SpawnError::LaunchFailed)),
            SpawnEvent::Launched(handle) => {
                if running {
                    SpawnStep::Surplus(handle)
                } else {
                    self.handle = Some(handle);
                    SpawnStep::Done(Ok(()))
                }
            },
            SpawnEvent::Requested(locator) => {
                if running {
                    SpawnStep::Done(Err(SpawnError::AlreadyRunning))
                } else {
                    SpawnStep::Resolve(locator)
                }
            },
            SpawnEvent::Resolved => {
                if running {
                    SpawnStep::Done(Err(SpawnError::AlreadyRunning))
                } else {
                    SpawnStep::Launch
                }
            },
        }
    }

    /// Takes the handle out and leaves the supervisor empty.
    ///
    /// The caller owns what comes back and sends it the termination signal
    /// once it has let go of the supervisor; `None` means that there is
    /// nothing to signal. Whether the signal arrives has no bearing on the
    /// supervisor: it holds nothing from the moment this call returns.
    #[must_use]
    pub fn terminate(&mut self) -> (taken: Option<H>)
        ensures
            final(self)@ == held_after_terminate(old(self)@),
            taken == taken_by_terminate(old(self)@),
    {
        self.handle.take()
    }
}

} // verus!
