//! The exit monitor of one process.
//!
//! Its life is `Spawned`, then `Watching`, then `Exited` or `LostHandle`, then
//! `Reaped`. It starts by claiming the process handle (`watch`). With the
//! handle it waits for the process to end, with the registry unlocked, and
//! reports how it ended (`exit_event`). Without it, a stop came first and
//! there is nothing to wait for. Either way it ends by removing the record
//! (`reap`), which is harmless where the stop has removed it already.
//!
//! Both registry steps take what acquiring the registry's lock gave. The
//! monitor has no caller to report to, so a corrupted lock only makes it skip
//! the step.
use crate::event::event_name;
use crate::event::prefixed;
use crate::event::Channel;
use crate::event::ProcessEvent;
use crate::registry::ManagedProcess;
use crate::registry::Locked;
use crate::registry::Registered;
use vstd::prelude::*;

verus! {

/// Where the monitor stands after its first registry step.
#[derive(Debug, PartialEq, Eq)]
pub enum Watch<C> {
    /// The monitor owns the process handle and waits on it.
    Watching(C),
    /// Another component took the handle first, or the record is gone.
    LostHandle,
}

/// The process handle that the monitor of `id` obtains, if any.
pub open spec fn watch_claim<C, S>(registry: Registered<C, S>, id: Seq<char>) -> Option<C> {
    if registry.contains_key(id) {
        registry[id].child
    } else {
        None
    }
}

/// The registry after the monitor of `id` has asked for the process handle:
/// the handle's slot is empty, and nothing else has changed.
pub open spec fn handle_taken<C, S>(registry: Registered<C, S>, id: Seq<char>) -> Registered<C, S> {
    if registry.contains_key(id) {
        registry.insert(id, ManagedProcess { child: None, stdin: registry[id].stdin })
    } else {
        registry
    }
}

/// The payload that reports how waiting for a process ended.
pub open spec fn exit_text(wait: Result<String, String>) -> Seq<char> {
    match wait {
        Ok(status) => "Exited with status: "@ + status@,
        Err(detail) => "Error waiting for process: "@ + detail@,
    }
}

/// The channel on which the end of waiting is reported.
pub open spec fn exit_channel(wait: Result<String, String>) -> Channel {
    match wait {
        Ok(_) => Channel::Closed,
        Err(_) => Channel::Error,
    }
}

/// First registry step of the monitor of process `process_id`: claims the
/// process handle. Where the registry cannot be reached, the monitor has lost
/// the handle as well.
pub fn watch<C, S>(lock: Locked<'_, C, S>, process_id: &str) -> (state: Watch<
    C,
>)
    ensures
        match lock {
            Ok(registry) => {
                &&& state == (match watch_claim(registry@, process_id@) {
                    Some(child) => Watch::Watching(child),
                    None => Watch::LostHandle,
                })
                &&& final(registry)@ == handle_taken(registry@, process_id@)
            },
            Err(_) => state == Watch::<C>::LostHandle,
        },
{
    match lock {
        Err(_) => Watch::LostHandle,
        Ok(registry) => {
            let ghost before = registry@;
            match registry.with_entry(process_id, ManagedProcess::<C, S>::take_child) {
                Some(Some(child)) => Watch::Watching(child),
                Some(None) => {
                    proof {
                        assert(registry@ =~= before);
                    }
                    Watch::LostHandle
                },
                None => Watch::LostHandle,
            }
        },
    }
}

/// The event that tells how waiting for process `process_id` ended: the
/// terminal event with the exit status where the wait gave one, an error
/// event where the wait itself failed.
pub fn exit_event(process_id: &str, wait: Result<String, String>) -> (event: ProcessEvent)
    ensures
        event.name@ == event_name(exit_channel(wait), process_id@),
        event.payload@ == exit_text(wait),
{
    match wait {
        Ok(status) => ProcessEvent::new(
            Channel::Closed,
            process_id,
            prefixed("Exited with status: ", status.as_str()),
        ),
        Err(detail) => ProcessEvent::new(
            Channel::Error,
            process_id,
            prefixed("Error waiting for process: ", detail.as_str()),
        ),
    }
}

/// Last registry step of the monitor of process `process_id`: removes the
/// record, and tells whether this call removed it. Where the registry cannot
/// be reached, nothing is removed.
pub fn reap<C, S>(lock: Locked<'_, C, S>, process_id: &str) -> (removed: bool)
    ensures
        match lock {
            Ok(registry) => {
                &&& removed == registry@.contains_key(process_id@)
                &&& final(registry)@ == registry@.remove(process_id@)
            },
            Err(_) => !removed,
        },
{
    match lock {
        Err(_) => false,
        Ok(registry) => registry.remove(process_id).is_some(),
    }
}

} // verus!
