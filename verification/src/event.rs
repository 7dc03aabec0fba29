//! What the library asks its driver to tell the outside world: named events
//! with a text payload.
use vstd::prelude::*;
use vstd::string::StringExecFns;

verus! {

/// The four channels on which a process reports.
#[derive(Clone, Copy, Debug, PartialEq, Eq)]
pub enum Channel {
    /// A line of the primary output.
    Message,
    /// A failure while reading from or waiting for the process.
    Error,
    /// A line of the diagnostic output.
    Stderr,
    /// The process has terminated.
    Closed,
}

/// One notification for the event sink.
#[derive(Debug, PartialEq, Eq)]
pub struct ProcessEvent {
    pub name: String,
    pub payload: String,
}

/// The prefix that event names of `channel` start with.
pub open spec fn channel_prefix(channel: Channel) -> Seq<char> {
    match channel {
        Channel::Message => "process_message_"@,
        Channel::Error => "process_error_"@,
        Channel::Stderr => "process_stderr_"@,
        Channel::Closed => "process_closed_"@,
    }
}

/// The name under which events of `channel` are emitted for process `id`.
pub open spec fn event_name(channel: Channel, id: Seq<char>) -> Seq<char> {
    channel_prefix(channel) + id
}

impl ProcessEvent {
    /// The event of `channel` for process `id` that carries `payload`.
    pub fn new(channel: Channel, id: &str, payload: String) -> (event: Self)
        ensures
            event.name@ == event_name(channel, id@),
            event.payload == payload,
    {
        let prefix = match channel {
            Channel::Message => "process_message_",
            Channel::Error => "process_error_",
            Channel::Stderr => "process_stderr_",
            Channel::Closed => "process_closed_",
        };
        let mut name = String::from_str(prefix);
        name.append(id);
        ProcessEvent { name, payload }
    }
}

/// `prefix` followed by `detail`.
pub fn prefixed(prefix: &str, detail: &str) -> (text: String)
    ensures
        text@ == prefix@ + detail@,
{
    let mut text = String::from_str(prefix);
    text.append(detail);
    text
}

} // verus!
