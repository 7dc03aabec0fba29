//! Writing one message to a process.
//!
//! A send borrows the input stream out of the registry, writes with the
//! registry unlocked, and gives the stream back. The two registry steps are
//! `begin_send` and `finish_send`; the write between them is the driver's.
//!
//! Each step takes what acquiring the registry's lock gave.
use crate::event::prefixed;
use crate::registry::ManagedProcess;
use crate::registry::Locked;
use crate::registry::Registered;
use vstd::prelude::*;
use vstd::string::StringExecFns;

verus! {

/// The registry step during which the lock was found corrupted.
#[derive(Clone, Copy, Debug, PartialEq, Eq)]
pub enum SendPhase {
    /// While taking the input stream.
    Taking,
    /// While giving the input stream back.
    Returning,
}

/// Why a message was not delivered.
#[derive(Debug, PartialEq, Eq)]
pub enum SendError {
    /// No process is registered under the identifier.
    ProcessNotFound,
    /// The input stream is out with another sender, or was never there. The
    /// caller may try again.
    StdinUnavailable,
    /// The registry's lock was left corrupted by an earlier failure.
    LockCorrupted(SendPhase),
    /// The write itself failed; the text is the underlying message.
    WriteFailed(String),
}

/// What became of an input stream that a sender gave back.
#[derive(Debug, PartialEq, Eq)]
pub enum InputReturn<S> {
    /// It is in its slot again.
    Restored,
    /// The process is gone from the registry; the stream is the caller's to drop.
    EntryGone(S),
    /// The slot was full; it is not overwritten, and the stream is the caller's
    /// to drop.
    SlotOccupied(S),
    /// The registry could not be reached; the stream is the caller's to drop.
    LockCorrupted(S),
}

/// How a send ended.
#[derive(Debug, PartialEq, Eq)]
pub struct SendOutcome<S> {
    /// What the caller of the send is told.
    pub result: Result<(), SendError>,
    /// What became of the input stream.
    pub returned: InputReturn<S>,
}

/// What a sender gets when it asks for the input stream of `id`.
pub open spec fn input_claim<C, S>(registry: Registered<C, S>, id: Seq<char>) -> Result<
    S,
    SendError,
> {
    if !registry.contains_key(id) {
        Err(SendError::ProcessNotFound)
    } else {
        match registry[id].stdin {
            Some(stdin) => Ok(stdin),
            None => Err(SendError::StdinUnavailable),
        }
    }
}

/// The registry after a sender has asked for the input stream of `id`: the
/// slot is empty, and nothing else has changed.
pub open spec fn input_taken<C, S>(registry: Registered<C, S>, id: Seq<char>) -> Registered<C, S> {
    if registry.contains_key(id) {
        registry.insert(id, ManagedProcess { child: registry[id].child, stdin: None })
    } else {
        registry
    }
}

/// What becomes of `stdin` when a sender gives it back for `id`.
pub open spec fn input_return<C, S>(registry: Registered<C, S>, id: Seq<char>, stdin: S) -> InputReturn<
    S,
> {
    if !registry.contains_key(id) {
        InputReturn::EntryGone(stdin)
    } else if registry[id].stdin is Some {
        InputReturn::SlotOccupied(stdin)
    } else {
        InputReturn::Restored
    }
}

/// The registry after a sender has given `stdin` back for `id`: the stream is
/// in its slot if the record is there and the slot was empty, and nothing has
/// changed otherwise.
pub open spec fn input_returned<C, S>(registry: Registered<C, S>, id: Seq<char>, stdin: S) -> Registered<
    C,
    S,
> {
    if registry.contains_key(id) && registry[id].stdin is None {
        registry.insert(id, ManagedProcess { child: registry[id].child, stdin: Some(stdin) })
    } else {
        registry
    }
}

/// The text of a send error for process `id`.
pub open spec fn send_error_text(error: SendError, id: Seq<char>) -> Seq<char> {
    match error {
        SendError::ProcessNotFound => "Process with ID "@ + id + " not found."@,
        SendError::StdinUnavailable => "Stdin for process "@ + id + " was not available."@,
        SendError::LockCorrupted(SendPhase::Taking) => "Mutex poisoned"@,
        SendError::LockCorrupted(SendPhase::Returning) => "Mutex poisoned while trying to return stdin"@,
        SendError::WriteFailed(detail) => "Failed to write to stdin: "@ + detail@,
    }
}

impl SendError {
    /// The message for the caller of a send to process `id`.
    pub fn message(&self, id: &str) -> (text: String)
        ensures
            text@ == send_error_text(*self, id@),
    {
        match self {
            SendError::ProcessNotFound => {
                let mut text = prefixed("Process with ID ", id);
                text.append(" not found.");
                text
            },
            SendError::StdinUnavailable => {
                let mut text = prefixed("Stdin for process ", id);
                text.append(" was not available.");
                text
            },
            SendError::LockCorrupted(SendPhase::Taking) => String::from_str("Mutex poisoned"),
            SendError::LockCorrupted(SendPhase::Returning) => String::from_str(
                "Mutex poisoned while trying to return stdin",
            ),
            SendError::WriteFailed(detail) => prefixed("Failed to write to stdin: ", detail.as_str()),
        }
    }
}

/// First registry step of a send: takes the input stream of process `id` out
/// of its slot.
///
/// Fails with `ProcessNotFound` where nothing is registered under `id`, with
/// `StdinUnavailable` where the slot is empty, and with `LockCorrupted` where
/// the registry could not be reached. A failed call changes nothing.
pub fn begin_send<C, S>(lock: Locked<'_, C, S>, id: &str) -> (claim: Result<
    S,
    SendError,
>)
    ensures
        match lock {
            Ok(registry) => {
                &&& claim == input_claim(registry@, id@)
                &&& final(registry)@ == input_taken(registry@, id@)
            },
            Err(_) => claim == Err::<S, SendError>(SendError::LockCorrupted(SendPhase::Taking)),
        },
{
    match lock {
        Err(_) => Err(SendError::LockCorrupted(SendPhase::Taking)),
        Ok(registry) => {
            let ghost before = registry@;
            match registry.with_entry(id, ManagedProcess::<C, S>::take_stdin) {
                None => Err(SendError::ProcessNotFound),
                Some(None) => {
                    proof {
                        assert(registry@ =~= before);
                    }
                    Err(SendError::StdinUnavailable)
                },
                Some(Some(stdin)) => Ok(stdin),
            }
        },
    }
}

/// The bytes to write for `message`: the message and one line terminator.
pub fn frame_message(message: String) -> (line: String)
    ensures
        line@ == message@.push('\n'),
{
    let mut line = message;
    line.append("\n");
    proof {
        reveal_strlit("\n");
        assert(line@ =~= message@.push('\n'));
    }
    line
}

/// What the caller is told of a write that went as `write` says.
pub open spec fn write_result(write: Result<(), String>) -> Result<(), SendError> {
    match write {
        Ok(_) => Ok(()),
        Err(detail) => Err(SendError::WriteFailed(detail)),
    }
}

/// Second registry step of a send: gives the input stream back, whether or
/// not the write succeeded, so that a later send may try again, and settles
/// what the caller is told.
///
/// The stream returns to its slot where the record is still there and the
/// slot is empty. Otherwise the registry stays as it is, and the stream comes
/// back to the caller. The caller is told how the write went, whatever became
/// of the stream; only a corrupted lock takes precedence.
pub fn finish_send<C, S>(
    lock: Locked<'_, C, S>,
    id: &str,
    stdin: S,
    write: Result<(), String>,
) -> (outcome: SendOutcome<S>)
    ensures
        match lock {
            Ok(registry) => {
                &&& outcome.result == write_result(write)
                &&& outcome.returned == input_return(registry@, id@, stdin)
                &&& final(registry)@ == input_returned(registry@, id@, stdin)
            },
            Err(_) => {
                &&& outcome.result == Err::<(), SendError>(
                    SendError::LockCorrupted(SendPhase::Returning),
                )
                &&& outcome.returned == InputReturn::LockCorrupted(stdin)
            },
        },
{
    match lock {
        Err(_) => SendOutcome {
            result: Err(SendError::LockCorrupted(SendPhase::Returning)),
            returned: InputReturn::LockCorrupted(stdin),
        },
        Ok(registry) => {
            let ghost before = registry@;
            let result = match write {
                Ok(_) => Ok(()),
                Err(detail) => Err(SendError::WriteFailed(detail)),
            };
            if !registry.contains(id) {
                return SendOutcome { result, returned: InputReturn::EntryGone(stdin) };
            }
            let give_back = |process: &mut ManagedProcess<C, S>| -> (rejected: Option<S>)
                ensures
                    final(process).child == old(process).child,
                    old(process).stdin is None ==> rejected is None && final(process).stdin
                        == Some(stdin),
                    old(process).stdin is Some ==> rejected == Some(stdin) && final(process).stdin
                        == old(process).stdin,
                { process.restore_stdin(stdin) };
            let returned = match registry.with_entry(id, give_back) {
                Some(Some(stdin)) => {
                    proof {
                        assert(registry@ =~= before);
                    }
                    InputReturn::SlotOccupied(stdin)
                },
                _ => InputReturn::Restored,
            };
            SendOutcome { result, returned }
        },
    }
}

} // verus!
