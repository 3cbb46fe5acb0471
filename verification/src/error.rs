//! How a spawn attempt fails.

use vstd::prelude::*;

verus! {

/// Why a spawn attempt brought no new sidecar under supervision. None of
/// these is fatal to the application: the window comes up all the same.
#[derive(Clone, Copy, Debug, PartialEq, Eq, Hash)]
pub enum SpawnError {
    /// The locator named no executable that the resolver could find.
    ResolveFailed,
    /// The executable was found, but the operating system did not start it.
    LaunchFailed,
    /// A sidecar is already supervised; a second one is not taken on.
    AlreadyRunning,
}

} // verus!
