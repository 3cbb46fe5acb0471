//! Sequences of calls on one supervisor, as they follow one another once
//! each call has the supervisor to itself.

use vstd::prelude::*;
use vstd::multiset::Multiset;
use crate::event::{SpawnEvent, SpawnStep};
use crate::supervisor::{
    held_after_spawn, held_after_terminate, step_after_spawn, taken_by_terminate,
};

verus! {

/// One call on the supervisor.
pub enum Call<H> {
    /// `spawn` with this event.
    Spawn(SpawnEvent<H>),
    /// `terminate`.
    Terminate,
}

/// The handle held after a call, given the handle held before it.
pub open spec fn held_after<H>(held: Option<H>, call: Call<H>) -> Option<H> {
    match call {
        Call::Spawn(event) => held_after_spawn(held, event),
        Call::Terminate => held_after_terminate(held),
    }
}

/// The handle that a call passes to its caller, who is from then on the one
/// to act on it: what `terminate` took out, or a process that `spawn` did not
/// take on.
pub open spec fn handed_out<H>(held: Option<H>, call: Call<H>) -> Option<H> {
    match call {
        Call::Spawn(event) => match step_after_spawn(held, event) {
            SpawnStep::Surplus(handle) => Some(handle),
            _ => None,
        },
        Call::Terminate => taken_by_terminate(held),
    }
}

/// The handle that a call brings with it.
pub open spec fn brought_in<H>(call: Call<H>) -> Option<H> {
    match call {
        Call::Spawn(SpawnEvent::Launched(handle)) => Some(handle),
        _ => None,
    }
}

/// The handles in an optional handle: none or one.
pub open spec fn handles<H>(slot: Option<H>) -> Multiset<H> {
    match slot {
        Some(handle) => Multiset::singleton(handle),
        None => Multiset::empty(),
    }
}

/// The handle held after a sequence of calls, first to last.
pub open spec fn held_after_all<H>(held: Option<H>, calls: Seq<Call<H>>) -> Option<H>
    decreases calls.len(),
{
    if calls.len() == 0 {
        held
    } else {
        held_after(held_after_all(held, calls.drop_last()), calls.last())
    }
}

/// The handle held by a supervisor that started empty, just before the call
/// at `index`.
pub open spec fn held_before<H>(calls: Seq<Call<H>>, index: int) -> Option<H>
    recommends
        0 <= index <= calls.len(),
{
    held_after_all(None, calls.take(index))
}

/// All the handles that a sequence of calls brings with it.
pub open spec fn brought_in_all<H>(calls: Seq<Call<H>>) -> Multiset<H>
    decreases calls.len(),
{
    if calls.len() == 0 {
        Multiset::empty()
    } else {
        brought_in_all(calls.drop_last()).add(handles(brought_in(calls.last())))
    }
}

/// All the handles that a sequence of calls passes to its callers, on a
/// supervisor that held `held` before the first of them.
pub open spec fn handed_out_all<H>(held: Option<H>, calls: Seq<Call<H>>) -> Multiset<H>
    decreases calls.len(),
{
    if calls.len() == 0 {
        Multiset::empty()
    } else {
        handed_out_all(held, calls.drop_last()).add(
            handles(handed_out(held_after_all(held, calls.drop_last()), calls.last())),
        )
    }
}

/// The call at `index` is a launch report with `handle` that found the
/// supervisor empty, and no `terminate` follows it.
pub open spec fn installs<H>(calls: Seq<Call<H>>, index: int, handle: H) -> bool {
    &&& 0 <= index < calls.len()
    &&& calls[index] == Call::Spawn(SpawnEvent::Launched(handle))
    &&& held_before(calls, index) is None
    &&& forall|later: int| index < later < calls.len() ==> !(#[trigger] calls[later] is Terminate)
}

} // verus!
