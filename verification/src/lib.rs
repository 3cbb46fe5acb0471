//! Lifecycle of a single sidecar process.
//!
//! A desktop shell starts one auxiliary backend process when it comes up and
//! sends it a termination signal when the main window is destroyed. This
//! crate holds the decisions of that lifecycle: whether to resolve, whether
//! to launch, where a fresh handle goes, and which handle, if any, is to be
//! signalled on shutdown. Resolving, launching and signalling themselves are
//! the embedding application's work: it performs what a step asks for and
//! reports back what happened.
//!
//! The supervisor owns at most one handle. A handle enters it through a
//! launch report that finds it empty and leaves it through `terminate`, so at
//! any moment a handle has exactly one owner. The supervisor restarts
//! nothing by itself, and it takes on no second process while it holds one.
//!
//! - [`supervisor`]: the supervisor and its two operations, with the
//!   transition functions that their contracts are stated in.
//! - [`event`]: what the application reports and what it is asked to do.
//! - [`error`]: how a spawn attempt fails.
//! - [`trace`]: sequences of calls, for statements about more than one call.
//! - [`laws`]: what is proved of such sequences.

pub mod error;
pub mod event;
pub mod laws;
pub mod supervisor;
pub mod trace;
