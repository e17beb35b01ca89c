//! Telling events to the terminal.

use wta::cli::publish::{
    event_method, method_name, publish_command, send, PublishQueue, ReadMember,
};

#[test]
fn publish_command_selects_stdin_transport() {
    let arguments = publish_command();

    assert_eq!(arguments, ["publish", "--stdin"]);
}

#[test]
fn events_leave_the_queue_in_their_order() {
    let mut queue = PublishQueue::new();
    send(&mut queue, "first".to_string());
    send(&mut queue, "second".to_string());
    assert_eq!(queue.next().as_deref(), Some("first"));
    send(&mut queue, "third".to_string());
    assert_eq!(queue.next().as_deref(), Some("second"));
    assert_eq!(queue.next().as_deref(), Some("third"));
    assert_eq!(queue.next(), None);
}

#[test]
fn the_method_is_read_out_of_an_event() {
    assert_eq!(
        event_method(r#"{"type":"event","method":"agent_status","params":{}}"#),
        "agent_status"
    );
    assert_eq!(event_method(r#"{"method":"a","method":"b"}"#), "b");
    for unreadable in ["", "no document", "[1]", "7", "{}", r#"{"method":7}"#] {
        assert_eq!(event_method(unreadable), "<unknown>", "{unreadable}");
    }
}

#[test]
fn the_method_is_found_among_the_members() {
    let member = |key: &str, text: Option<&str>| ReadMember {
        key: key.to_string(),
        text: text.map(str::to_string),
    };
    let members = vec![member("type", Some("event")), member("method", Some("agent_status"))];
    assert_eq!(method_name(&Some(members)), "agent_status");
    assert_eq!(method_name(&Some(vec![member("method", None)])), "<unknown>");
    assert_eq!(method_name(&Some(vec![member("type", Some("event"))])), "<unknown>");
    assert_eq!(method_name(&None), "<unknown>");
}
