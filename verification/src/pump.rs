//! The output pump and the diagnostic pump: what to do with each line read
//! from a process.
//!
//! A pump never touches the registry. Its driver reads one line at a time and
//! asks here what to emit and whether to read on.
use crate::event::event_name;
use crate::event::prefixed;
use crate::event::Channel;
use crate::event::ProcessEvent;
use crate::text::trim;
use crate::text::trimmed;
use vstd::prelude::*;

verus! {

/// What one attempt to read a line from a stream gave.
#[derive(Debug, PartialEq, Eq)]
pub enum LineRead {
    /// The stream is closed: nothing more will come.
    Eof,
    /// A line, with or without its terminator.
    Line(String),
    /// The read failed; the text describes the failure.
    Failed(String),
}

/// What a pump does after one read.
#[derive(Debug, PartialEq, Eq)]
pub struct PumpStep {
    /// The event to emit, if any.
    pub event: Option<ProcessEvent>,
    /// Whether the pump reads on. A pump that does not read on has finished.
    pub proceed: bool,
}

/// The step of a pump that forwards lines on `channel` and introduces read
/// failures with `failure`.
///
/// End of stream ends the pump silently. A line is forwarded trimmed, and only
/// if something is left of it; the pump reads on either way. A failed read is
/// reported on the error channel and ends the pump.
pub open spec fn pump_step(
    channel: Channel,
    failure: Seq<char>,
    id: Seq<char>,
    read: LineRead,
    step: PumpStep,
) -> bool {
    match read {
        LineRead::Eof => step.event is None && !step.proceed,
        LineRead::Line(line) => {
            &&& step.proceed
            &&& trimmed(line@).len() == 0 ==> step.event is None
            &&& trimmed(line@).len() > 0 ==> {
                &&& step.event matches Some(event)
                &&& event.name@ == event_name(channel, id)
                &&& event.payload@ == trimmed(line@)
            }
        },
        LineRead::Failed(detail) => {
            &&& !step.proceed
            &&& step.event matches Some(event)
            &&& event.name@ == event_name(Channel::Error, id)
            &&& event.payload@ == failure + detail@
        },
    }
}

fn pump(channel: Channel, failure: &str, process_id: &str, read: LineRead) -> (step: PumpStep)
    ensures
        pump_step(channel, failure@, process_id@, read, step),
{
    match read {
        LineRead::Eof => PumpStep { event: None, proceed: false },
        LineRead::Line(line) => {
            let text = trim(line.as_str());
            if text.as_str().is_empty() {
                PumpStep { event: None, proceed: true }
            } else {
                PumpStep { event: Some(ProcessEvent::new(channel, process_id, text)), proceed: true }
            }
        },
        LineRead::Failed(detail) => {
            let payload = prefixed(failure, detail.as_str());
            PumpStep {
                event: Some(ProcessEvent::new(Channel::Error, process_id, payload)),
                proceed: false,
            }
        },
    }
}

/// One step of the output pump of process `process_id`: lines go out as
/// `process_message_` events.
pub fn handle_stdout(process_id: &str, read: LineRead) -> (step: PumpStep)
    ensures
        pump_step(Channel::Message, "Error reading stdout: "@, process_id@, read, step),
{
    pump(Channel::Message, "Error reading stdout: ", process_id, read)
}

/// One step of the diagnostic pump of process `process_id`: lines go out as
/// `process_stderr_` events.
pub fn handle_stderr(process_id: &str, read: LineRead) -> (step: PumpStep)
    ensures
        pump_step(Channel::Stderr, "Error reading stderr: "@, process_id@, read, step),
{
    pump(Channel::Stderr, "Error reading stderr: ", process_id, read)
}

} // verus!
