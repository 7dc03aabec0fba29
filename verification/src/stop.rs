//! Stopping a process on request.
//!
//! In one critical section the record leaves the registry and its process
//! handle is claimed. The kill that follows is the driver's, with the
//! registry unlocked.
//!
//! The registry step takes what acquiring the registry's lock gave.
use crate::event::prefixed;
use crate::registry::Locked;
use crate::registry::Registered;
use vstd::prelude::*;
use vstd::string::StringExecFns;

verus! {

/// Why a process was not stopped.
#[derive(Debug, PartialEq, Eq)]
pub enum StopError {
    /// Nothing is registered under the identifier, or the exit monitor holds
    /// the process handle already. This is an expected race, not a fault.
    ProcessNotFoundOrAlreadyHandled,
    /// The registry's lock was left corrupted by an earlier failure; the text
    /// is the underlying message.
    LockCorrupted(String),
    /// The kill signal could not be sent; the text is the underlying message.
    KillFailed(String),
}

/// What a stop request for `id` obtains: the process handle, if a record is
/// there and still owns it.
pub open spec fn stop_claim<C, S>(registry: Registered<C, S>, id: Seq<char>) -> Result<
    C,
    StopError,
> {
    if registry.contains_key(id) && registry[id].child is Some {
        Ok(registry[id].child->0)
    } else {
        Err(StopError::ProcessNotFoundOrAlreadyHandled)
    }
}

/// The text of a stop error for process `id`.
pub open spec fn stop_error_text(error: StopError, id: Seq<char>) -> Seq<char> {
    match error {
        StopError::ProcessNotFoundOrAlreadyHandled => "Process with ID "@ + id
            + " not found or already being monitored/stopped."@,
        StopError::LockCorrupted(detail) => "Mutex poisoned: "@ + detail@,
        StopError::KillFailed(detail) => "Failed to kill process: "@ + detail@,
    }
}

impl StopError {
    /// The message for the caller of a stop of process `id`.
    pub fn message(&self, id: &str) -> (text: String)
        ensures
            text@ == stop_error_text(*self, id@),
    {
        match self {
            StopError::ProcessNotFoundOrAlreadyHandled => {
                let mut text = prefixed("Process with ID ", id);
                text.append(" not found or already being monitored/stopped.");
                text
            },
            StopError::LockCorrupted(detail) => prefixed("Mutex poisoned: ", detail.as_str()),
            StopError::KillFailed(detail) => prefixed("Failed to kill process: ", detail.as_str()),
        }
    }
}

/// The registry step of a stop: removes the record of process `id` and
/// claims its process handle.
///
/// The record is gone afterwards in every case. The handle comes back where
/// the record was there and still owned it; the caller then kills the
/// process. Otherwise there is nothing to kill. Where the registry could not
/// be reached, the stop fails with `LockCorrupted` and the text of the lock
/// failure.
pub fn stop_external_process<C, S>(lock: Locked<'_, C, S>, id: &str) -> (claim:
    Result<C, StopError>)
    ensures
        match lock {
            Ok(registry) => {
                &&& claim == stop_claim(registry@, id@)
                &&& final(registry)@ == registry@.remove(id@)
            },
            Err(detail) => claim == Err::<C, StopError>(StopError::LockCorrupted(detail)),
        },
{
    match lock {
        Err(detail) => Err(StopError::LockCorrupted(detail)),
        Ok(registry) => match registry.remove(id) {
            Some(process) => match process.into_child() {
                Some(child) => Ok(child),
                None => Err(StopError::ProcessNotFoundOrAlreadyHandled),
            },
            None => Err(StopError::ProcessNotFoundOrAlreadyHandled),
        },
    }
}

/// The result of the stop, given how the kill went.
pub fn stop_result(kill: Result<(), String>) -> (result: Result<(), StopError>)
    ensures
        kill is Ok ==> result is Ok,
        kill matches Err(detail) ==> result matches Err(error) && error == StopError::KillFailed(
            detail,
        ),
{
    match kill {
        Ok(_) => Ok(()),
        Err(detail) => Err(StopError::KillFailed(detail)),
    }
}

} // verus!
