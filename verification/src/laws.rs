//! What holds of the registry under every interleaving of its users.
//!
//! The lock makes each registry step atomic, so whatever the spawner, the
//! senders, the monitors and the stop requests do concurrently, the registry
//! sees some sequence of steps. The laws here speak of all such sequences.
use crate::monitor::handle_taken;
use crate::monitor::watch_claim;
use crate::registry::ManagedProcess;
use crate::registry::Registered;
use crate::send::input_claim;
use crate::send::input_return;
use crate::send::input_returned;
use crate::send::input_taken;
use crate::send::InputReturn;
use crate::send::SendError;
use crate::stop::stop_claim;
use crate::stop::StopError;
use vstd::prelude::*;

verus! {

/// One critical section, named by the function that performs it.
pub enum Step<C, S> {
    /// The spawner files a record (`ProcessRegistry::insert`).
    Insert { id: Seq<char>, process: ManagedProcess<C, S> },
    /// A sender asks for the input stream (`begin_send`).
    BeginSend { id: Seq<char> },
    /// A sender gives the input stream back (`finish_send`).
    FinishSend { id: Seq<char>, stdin: S },
    /// The monitor asks for the process handle (`watch`).
    Watch { id: Seq<char> },
    /// The monitor removes the record (`reap`).
    Reap { id: Seq<char> },
    /// A stop request removes the record and asks for the process handle
    /// (`stop_external_process`).
    Stop { id: Seq<char> },
}

/// The registry after `step`.
pub open spec fn after<C, S>(registry: Registered<C, S>, step: Step<C, S>) -> Registered<C, S> {
    match step {
        Step::Insert { id, process } => registry.insert(id, process),
        Step::BeginSend { id } => input_taken(registry, id),
        Step::FinishSend { id, stdin } => input_returned(registry, id, stdin),
        Step::Watch { id } => handle_taken(registry, id),
        Step::Reap { id } => registry.remove(id),
        Step::Stop { id } => registry.remove(id),
    }
}

/// The registry after `steps`, one after the other.
pub open spec fn after_all<C, S>(registry: Registered<C, S>, steps: Seq<Step<C, S>>) -> Registered<
    C,
    S,
>
    decreases steps.len(),
{
    if steps.len() == 0 {
        registry
    } else {
        after(after_all(registry, steps.drop_last()), steps.last())
    }
}

/// `step` files a record under `id`.
pub open spec fn inserts<C, S>(step: Step<C, S>, id: Seq<char>) -> bool {
    step matches Step::Insert { id: filed, .. } && filed == id
}

/// `step` removes the record of `id`.
pub open spec fn removes<C, S>(step: Step<C, S>, id: Seq<char>) -> bool {
    ||| step matches Step::Reap { id: removed } && removed == id
    ||| step matches Step::Stop { id: removed } && removed == id
}

/// `step` gives an input stream back for `id`.
pub open spec fn returns_input<C, S>(step: Step<C, S>, id: Seq<char>) -> bool {
    step matches Step::FinishSend { id: returned, .. } && returned == id
}

/// For an identifier under which nothing is registered, a send is refused
/// with `ProcessNotFound` and a stop with `ProcessNotFoundOrAlreadyHandled`,
/// the monitor finds no handle, and none of them changes the registry.
pub proof fn law_unknown_process_is_refused<C, S>(registry: Registered<C, S>, id: Seq<char>, stdin: S)
    requires
        !registry.contains_key(id),
    ensures
        input_claim(registry, id) == Err::<S, SendError>(SendError::ProcessNotFound),
        input_taken(registry, id) == registry,
        input_return(registry, id, stdin) == InputReturn::EntryGone(stdin),
        input_returned(registry, id, stdin) == registry,
        stop_claim(registry, id) == Err::<C, StopError>(StopError::ProcessNotFoundOrAlreadyHandled),
        watch_claim(registry, id) is None,
        handle_taken(registry, id) == registry,
        registry.remove(id) == registry,
{
    assert(registry.remove(id) =~= registry);
}

/// An identifier that was never spawned is never registered: starting without
/// it, no sequence of steps that files nothing under it brings it in. So
/// every send and stop for it is refused, at every point.
pub proof fn law_never_spawned_never_registered<C, S>(
    registry: Registered<C, S>,
    steps: Seq<Step<C, S>>,
    id: Seq<char>,
)
    requires
        !registry.contains_key(id),
        forall|k: int| 0 <= k < steps.len() ==> !inserts(#[trigger] steps[k], id),
    ensures
        !after_all(registry, steps).contains_key(id),
        input_claim(after_all(registry, steps), id) == Err::<S, SendError>(
            SendError::ProcessNotFound,
        ),
        stop_claim(after_all(registry, steps), id) == Err::<C, StopError>(
            StopError::ProcessNotFoundOrAlreadyHandled,
        ),
    decreases steps.len(),
{
    if steps.len() > 0 {
        let earlier = steps.drop_last();
        assert forall|k: int| 0 <= k < earlier.len() implies !inserts(#[trigger] earlier[k], id) by {
            assert(earlier[k] == steps[k]);
        }
        law_never_spawned_never_registered(registry, earlier, id);
        assert(!inserts(steps[steps.len() - 1], id));
    }
}

/// Filing a record makes it the one record under its identifier.
pub proof fn law_insert_files_the_record<C, S>(
    registry: Registered<C, S>,
    id: Seq<char>,
    process: ManagedProcess<C, S>,
)
    ensures
        after(registry, Step::Insert { id, process }).contains_key(id),
        after(registry, Step::Insert { id, process })[id] == process,
{
}

/// A registered process stays registered until a stop or its monitor removes
/// it: no other step, for this or any other identifier, takes the record out.
pub proof fn law_entry_lives_until_removed<C, S>(
    registry: Registered<C, S>,
    steps: Seq<Step<C, S>>,
    id: Seq<char>,
)
    requires
        registry.contains_key(id),
        forall|k: int| 0 <= k < steps.len() ==> !removes(#[trigger] steps[k], id),
    ensures
        after_all(registry, steps).contains_key(id),
    decreases steps.len(),
{
    if steps.len() > 0 {
        let earlier = steps.drop_last();
        assert forall|k: int| 0 <= k < earlier.len() implies !removes(#[trigger] earlier[k], id) by {
            assert(earlier[k] == steps[k]);
        }
        law_entry_lives_until_removed(registry, earlier, id);
        assert(!removes(steps[steps.len() - 1], id));
    }
}

/// Removal happens once. Whichever of stop and monitor removes the record
/// first, the other finds it absent, and its own removal changes nothing.
pub proof fn law_removal_is_idempotent<C, S>(registry: Registered<C, S>, id: Seq<char>)
    ensures
        !registry.remove(id).contains_key(id),
        registry.remove(id).remove(id) == registry.remove(id),
        after(after(registry, Step::Stop { id }), Step::Reap { id }) == after(
            registry,
            Step::Stop { id },
        ),
        after(after(registry, Step::Reap { id }), Step::Stop { id }) == after(
            registry,
            Step::Reap { id },
        ),
{
    assert(registry.remove(id).remove(id) =~= registry.remove(id));
}

/// A successful `begin_send` leaves the input slot empty, and gets exactly
/// the stream that was in it.
pub proof fn law_sender_takes_the_stream<C, S>(registry: Registered<C, S>, id: Seq<char>)
    requires
        input_claim(registry, id) is Ok,
    ensures
        registry.contains_key(id),
        registry[id].stdin == Some(input_claim(registry, id)->Ok_0),
        input_taken(registry, id).contains_key(id),
        input_taken(registry, id)[id].stdin is None,
        input_taken(registry, id)[id].child == registry[id].child,
{
}

/// At most one write is in flight. While the input stream of a process is out
/// of its slot, every further send is rejected, whatever else happens to the
/// registry, until the stream is given back or a new record is filed under
/// the identifier. The rejected send is `StdinUnavailable` while the process
/// is registered and `ProcessNotFound` once it is gone.
pub proof fn law_single_writer<C, S>(
    registry: Registered<C, S>,
    steps: Seq<Step<C, S>>,
    id: Seq<char>,
)
    requires
        registry.contains_key(id) ==> registry[id].stdin is None,
        forall|k: int|
            0 <= k < steps.len() ==> !returns_input(#[trigger] steps[k], id) && !inserts(
                steps[k],
                id,
            ),
    ensures
        after_all(registry, steps).contains_key(id) ==> after_all(registry, steps)[id].stdin is None,
        input_claim(after_all(registry, steps), id) == (if after_all(registry, steps).contains_key(
            id,
        ) {
            Err::<S, SendError>(SendError::StdinUnavailable)
        } else {
            Err::<S, SendError>(SendError::ProcessNotFound)
        }),
    decreases steps.len(),
{
    if steps.len() > 0 {
        let earlier = steps.drop_last();
        assert forall|k: int| 0 <= k < earlier.len() implies !returns_input(
            #[trigger] earlier[k],
            id,
        ) && !inserts(earlier[k], id) by {
            assert(earlier[k] == steps[k]);
        }
        law_single_writer(registry, earlier, id);
        let last = steps[steps.len() - 1];
        assert(!returns_input(last, id) && !inserts(last, id));
    }
}

/// A rejected send performs no write and leaves no trace: it obtains no
/// stream, and the registry is as before.
pub proof fn law_rejected_send_changes_nothing<C, S>(registry: Registered<C, S>, id: Seq<char>)
    requires
        input_claim(registry, id) is Err,
    ensures
        input_taken(registry, id) == registry,
{
    assert(input_taken(registry, id) =~= registry);
}

/// No stream is lost or duplicated by a send: taking the input stream and
/// giving it back restores the registry exactly.
pub proof fn law_send_round_trip<C, S>(registry: Registered<C, S>, id: Seq<char>)
    requires
        input_claim(registry, id) is Ok,
    ensures
        input_return(input_taken(registry, id), id, input_claim(registry, id)->Ok_0)
            == InputReturn::<S>::Restored,
        input_returned(input_taken(registry, id), id, input_claim(registry, id)->Ok_0) == registry,
{
    let stdin = input_claim(registry, id)->Ok_0;
    assert(input_returned(input_taken(registry, id), id, stdin) =~= registry);
}

/// The process handle is claimed at most once. Once its slot is empty or the
/// record is gone, neither a monitor nor a stop obtains a handle, whatever
/// else happens to the registry, unless a new record is filed under the
/// identifier.
pub proof fn law_handle_claimed_once<C, S>(
    registry: Registered<C, S>,
    steps: Seq<Step<C, S>>,
    id: Seq<char>,
)
    requires
        registry.contains_key(id) ==> registry[id].child is None,
        forall|k: int| 0 <= k < steps.len() ==> !inserts(#[trigger] steps[k], id),
    ensures
        after_all(registry, steps).contains_key(id) ==> after_all(registry, steps)[id].child is None,
        watch_claim(after_all(registry, steps), id) is None,
        stop_claim(after_all(registry, steps), id) is Err,
    decreases steps.len(),
{
    if steps.len() > 0 {
        let earlier = steps.drop_last();
        assert forall|k: int| 0 <= k < earlier.len() implies !inserts(#[trigger] earlier[k], id) by {
            assert(earlier[k] == steps[k]);
        }
        law_handle_claimed_once(registry, earlier, id);
        assert(!inserts(steps[steps.len() - 1], id));
    }
}

/// A stop that races with the natural exit of a process, in both orders.
///
/// Where the record owns the process handle, exactly one of the two obtains
/// it: the monitor if its `watch` comes first, the stop otherwise. The other
/// finds it taken. Either way, once the stop and the monitor's `reap` have
/// both run, nothing is registered under the identifier.
pub proof fn law_stop_races_exit<C, S>(registry: Registered<C, S>, id: Seq<char>)
    ensures
        watch_claim(registry, id) is Some ==> stop_claim(handle_taken(registry, id), id) is Err,
        stop_claim(registry, id) is Ok ==> watch_claim(
            after(registry, Step::Stop { id }),
            id,
        ) is None,
        registry.contains_key(id) && registry[id].child is Some ==> {
            &&& watch_claim(registry, id) == registry[id].child
            &&& stop_claim(registry, id) == Ok::<C, StopError>(registry[id].child->0)
        },
        !after_all(
            registry,
            seq![Step::<C, S>::Watch { id }, Step::Stop { id }, Step::Reap { id }],
        ).contains_key(id),
        !after_all(
            registry,
            seq![Step::<C, S>::Stop { id }, Step::Watch { id }, Step::Reap { id }],
        ).contains_key(id),
{
    let monitor_first = seq![Step::<C, S>::Watch { id }, Step::Stop { id }, Step::Reap { id }];
    let stop_first = seq![Step::<C, S>::Stop { id }, Step::Watch { id }, Step::Reap { id }];
    assert(monitor_first.last() == Step::<C, S>::Reap { id });
    assert(stop_first.last() == Step::<C, S>::Reap { id });
}

} // verus!
