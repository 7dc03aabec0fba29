use process_registry::event::prefixed;
use process_registry::event::Channel;
use process_registry::event::ProcessEvent;

#[test]
fn message_events_are_named_after_the_process() {
    let event = ProcessEvent::new(Channel::Message, "42", "hello".to_string());
    assert_eq!(event.name, "process_message_42");
    assert_eq!(event.payload, "hello");
}

#[test]
fn error_events_are_named_after_the_process() {
    let event = ProcessEvent::new(Channel::Error, "42", "boom".to_string());
    assert_eq!(event.name, "process_error_42");
    assert_eq!(event.payload, "boom");
}

#[test]
fn stderr_events_are_named_after_the_process() {
    let event = ProcessEvent::new(Channel::Stderr, "42", "warn".to_string());
    assert_eq!(event.name, "process_stderr_42");
    assert_eq!(event.payload, "warn");
}

#[test]
fn closed_events_are_named_after_the_process() {
    let event = ProcessEvent::new(Channel::Closed, "42", "bye".to_string());
    assert_eq!(event.name, "process_closed_42");
    assert_eq!(event.payload, "bye");
}

#[test]
fn an_empty_id_leaves_the_bare_prefix() {
    let event = ProcessEvent::new(Channel::Message, "", String::new());
    assert_eq!(event.name, "process_message_");
    assert_eq!(event.payload, "");
}

#[test]
fn prefixed_puts_the_prefix_first() {
    assert_eq!(prefixed("abc", "def"), "abcdef");
    assert_eq!(prefixed("", "def"), "def");
    assert_eq!(prefixed("abc", ""), "abc");
}
