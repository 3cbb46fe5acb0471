//! What holds of the supervisor across several calls.
//!
//! Every statement here is over the transition functions that the contracts
//! of `spawn` and `terminate` are written in, so it holds of any run of the
//! executable code in which the calls follow one another.

use vstd::prelude::*;
use crate::error::SpawnError;
use crate::event::{SpawnEvent, SpawnStep};
use crate::supervisor::{
    held_after_spawn, held_after_terminate, step_after_spawn, taken_by_terminate,
};
use crate::trace::{
    brought_in, brought_in_all, handed_out, handed_out_all, handles, held_after, held_after_all,
    held_before, installs, Call,
};

verus! {

/// Terminating twice in a row is terminating once: the second call finds
/// nothing, hands out nothing and leaves the supervisor as the first left it.
pub proof fn terminate_twice_is_terminate_once<H>(held: Option<H>)
    ensures
        taken_by_terminate(held_after_terminate(held)) is None,
        held_after_terminate(held_after_terminate(held)) == held_after_terminate(held),
{
}

/// Terminating a supervisor that holds nothing hands out nothing to signal
/// and leaves it as it was.
pub proof fn terminate_on_empty_is_noop<H>(held: Option<H>)
    requires
        held is None,
    ensures
        taken_by_terminate(held) is None,
        held_after_terminate(held) == held,
{
}

/// Where resolving or launching fails on an empty supervisor, the attempt
/// ends in the error that names the failure, the supervisor stays empty, and
/// a `terminate` that follows is a no-op.
pub proof fn failed_spawn_leaves_supervisor_empty<H>(held: Option<H>, event: SpawnEvent<H>)
    requires
        held is None,
        event is Unresolved || event is Refused,
    ensures
        event is Unresolved ==> step_after_spawn(held, event) == SpawnStep::<H>::Done(
            Err(SpawnError::ResolveFailed),
        ),
        event is Refused ==> step_after_spawn(held, event) == SpawnStep::<H>::Done(
            Err(SpawnError::LaunchFailed),
        ),
        held_after_spawn(held, event) is None,
        taken_by_terminate(held_after_spawn(held, event)) is None,
        held_after_terminate(held_after_spawn(held, event)) == held_after_spawn(held, event),
{
}

/// An attempt ends in an error exactly where resolving or launching failed
/// or a sidecar was already supervised, and a step that ends it so leaves the
/// supervisor as it was.
pub proof fn spawn_error_changes_nothing<H>(held: Option<H>, event: SpawnEvent<H>)
    ensures
        step_after_spawn(held, event).outcome() matches Some(Err(_)) <==> event is Unresolved
            || event is Refused || held is Some,
        step_after_spawn(held, event).outcome() matches Some(Err(_)) ==> held_after_spawn(
            held,
            event,
        ) == held,
        step_after_spawn(held, event).outcome() == Some(
            Err::<(), SpawnError>(SpawnError::AlreadyRunning),
        ) <==> held is Some && !(event is Unresolved) && !(event is Refused),
{
}

/// The supervisor changes state in two ways only. It goes from empty to
/// running through a launch report, which it answers with success and whose
/// handle it then holds; it goes from running to empty through `terminate`.
/// Every other call leaves it as it was; a handle that is held is never
/// replaced by another.
pub proof fn only_launch_fills_only_terminate_empties<H>(held: Option<H>, call: Call<H>)
    ensures
        held is None && held_after(held, call) is Some <==> held is None && call is Spawn
            && call->Spawn_0 is Launched,
        held is None && held_after(held, call) is Some ==> {
            &&& held_after(held, call) == brought_in(call)
            &&& step_after_spawn(held, call->Spawn_0) == SpawnStep::<H>::Done(Ok(()))
        },
        call is Spawn ==> (step_after_spawn(held, call->Spawn_0) == SpawnStep::<H>::Done(Ok(()))
            <==> held is None && call->Spawn_0 is Launched),
        held is Some && held_after(held, call) is None <==> held is Some && call is Terminate,
        held is Some && held_after(held, call) is Some ==> held_after(held, call) == held,
{
}

/// The supervisor asks for outside work on the way to success only: for
/// resolving when an attempt is requested on an empty supervisor, and then
/// for the locator that was requested; for launching when that locator has
/// resolved and the supervisor is still empty. After a failure, or while a
/// sidecar is supervised, it asks for neither.
pub proof fn outside_work_is_asked_on_the_way_to_success<H>(held: Option<H>, event: SpawnEvent<H>)
    ensures
        step_after_spawn(held, event) is Resolve <==> held is None && event is Requested,
        step_after_spawn(held, event) is Resolve ==> step_after_spawn(held, event)->Resolve_0
            == event->Requested_0,
        step_after_spawn(held, event) is Launch <==> held is None && event is Resolved,
{
}

/// No call duplicates or loses a handle: the handle held before a call and
/// the one the call brings are, taken together, the handle held after it and
/// the one it hands to its caller. A handle thus has one owner at a time.
pub proof fn calls_conserve_handles<H>(held: Option<H>, call: Call<H>)
    ensures
        handles(held).add(handles(brought_in(call))) == handles(held_after(held, call)).add(
            handles(handed_out(held, call)),
        ),
{
    let before = handles(held).add(handles(brought_in(call)));
    let after = handles(held_after(held, call)).add(handles(handed_out(held, call)));
    assert(before =~= after);
}

/// Over any sequence of calls, in whatever order spawn events and
/// terminations fall, every handle that was held at the start or brought by
/// a launch report is in exactly one place at the end: still held, or passed
/// once to the caller of one call.
pub proof fn traces_conserve_handles<H>(held: Option<H>, calls: Seq<Call<H>>)
    ensures
        handles(held).add(brought_in_all(calls)) == handles(held_after_all(held, calls)).add(
            handed_out_all(held, calls),
        ),
    decreases calls.len(),
{
    let before = handles(held).add(brought_in_all(calls));
    let after = handles(held_after_all(held, calls)).add(handed_out_all(held, calls));
    if calls.len() > 0 {
        let earlier = calls.drop_last();
        let last = calls.last();
        let between = held_after_all(held, earlier);
        traces_conserve_handles(held, earlier);
        calls_conserve_handles(between, last);
        assert forall|handle: H| before.count(handle) == after.count(handle) by {
            assert(handles(held).add(brought_in_all(earlier)).count(handle) == handles(
                between,
            ).add(handed_out_all(held, earlier)).count(handle));
            assert(handles(between).add(handles(brought_in(last))).count(handle) == handles(
                held_after(between, last),
            ).add(handles(handed_out(between, last))).count(handle));
        }
    }
    assert(before =~= after);
}

/// The calls of a spawn attempt in which resolving and launching succeed,
/// with one `terminate` put in at position `cut` (0: before the request, 3:
/// after the launch report).
pub open spec fn attempt_with_terminate<H>(locator: String, handle: H, cut: int) -> Seq<Call<H>>
    recommends
        0 <= cut <= 3,
{
    seq![
        Call::Spawn(SpawnEvent::Requested(locator)),
        Call::Spawn(SpawnEvent::Resolved),
        Call::Spawn(SpawnEvent::Launched(handle)),
    ].insert(cut, Call::Terminate)
}

/// However one successful spawn attempt and one `terminate` interleave on an
/// empty supervisor, the launched handle ends with exactly one owner: the
/// supervisor, where `terminate` came before the launch report, or the
/// caller of `terminate`, where it came after. No spawn step hands it out.
pub proof fn one_owner_in_every_interleaving<H>(locator: String, handle: H, cut: int)
    requires
        0 <= cut <= 3,
    ensures
        ({
            let calls = attempt_with_terminate(locator, handle, cut);
            let held = held_after_all(None, calls);
            let taken = handed_out(held_before(calls, cut), calls[cut]);
            &&& calls[cut] is Terminate
            &&& cut < 3 ==> held == Some(handle) && taken is None
            &&& cut == 3 ==> held is None && taken == Some(handle)
            &&& forall|at: int|
                0 <= at < 4 && at != cut ==> handed_out(held_before(calls, at), #[trigger] calls[at])
                    is None
        }),
{
    reveal_with_fuel(held_after_all, 5);
}

/// A supervisor that started empty holds a handle exactly when some launch
/// report brought that handle while it was empty and no `terminate` has
/// followed since.
pub proof fn held_iff_installed<H>(calls: Seq<Call<H>>, handle: H)
    ensures
        held_after_all(None, calls) == Some(handle) <==> exists|index: int|
            installs(calls, index, handle),
    decreases calls.len(),
{
    if calls.len() > 0 {
        let earlier = calls.drop_last();
        let end = calls.len() - 1;
        held_iff_installed(earlier, handle);
        assert forall|index: int| 0 <= index < end implies held_before(calls, index)
            == held_before(earlier, index) by {
            assert(calls.take(index) =~= earlier.take(index));
        }
        if held_after_all(None, calls) == Some(handle) {
            if held_after_all(None, earlier) == Some(handle) {
                let index = choose|index: int| installs(earlier, index, handle);
                assert(installs(calls, index, handle)) by {
                    assert forall|later: int| index < later < calls.len() implies !(
                    #[trigger] calls[later] is Terminate) by {
                        if later < end {
                            assert(calls[later] == earlier[later]);
                        }
                    }
                }
            } else {
                assert(installs(calls, end, handle));
            }
        }
        if exists|index: int| installs(calls, index, handle) {
            let index = choose|index: int| installs(calls, index, handle);
            if index < end {
                assert(installs(earlier, index, handle)) by {
                    assert forall|later: int| index < later < earlier.len() implies !(
                    #[trigger] earlier[later] is Terminate) by {
                        assert(earlier[later] == calls[later]);
                    }
                }
            }
        }
    }
}

} // verus!
