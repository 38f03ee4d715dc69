use crossbeam::channel::unbounded;
use repl_core::abort::SharedAbortSignal;
use repl_core::errors::ReplError;
use repl_core::relay::resolve_send;
use repl_core::relay::ReplyStreamEvent;
use repl_core::relay::ReplyStreamHandler;

#[test]
fn fresh_blank_chunk_is_suppressed() {
    let (tx, rx) = unbounded();
    let abort = SharedAbortSignal::new();
    let mut relay = ReplyStreamHandler::new(tx, abort);
    assert!(relay.text("\n\n").is_ok());
    assert_eq!(relay.get_buffer(), "");
    assert!(rx.try_recv().is_err());
}

#[test]
fn blank_chunk_after_text_is_appended_and_forwarded() {
    let (tx, rx) = unbounded();
    let abort = SharedAbortSignal::new();
    let mut relay = ReplyStreamHandler::new(tx, abort);
    assert!(relay.text("hi").is_ok());
    assert!(relay.text("\n\n").is_ok());
    assert_eq!(relay.get_buffer(), "hi\n\n");
    assert_eq!(rx.try_recv().unwrap(), ReplyStreamEvent::Text("hi".to_string()));
    assert_eq!(rx.try_recv().unwrap(), ReplyStreamEvent::Text("\n\n".to_string()));
    assert!(rx.try_recv().is_err());
}

#[test]
fn buffer_is_concatenation_of_accepted_fragments() {
    let (tx, _rx) = unbounded();
    let abort = SharedAbortSignal::new();
    let mut relay = ReplyStreamHandler::new(tx, abort);
    assert!(relay.text("\n\n").is_ok());
    assert!(relay.text("one ").is_ok());
    assert!(relay.text("two ").is_ok());
    assert!(relay.text("three").is_ok());
    assert_eq!(relay.get_buffer(), "one two three");
}

#[test]
fn done_is_the_terminal_event() {
    let (tx, rx) = unbounded();
    let abort = SharedAbortSignal::new();
    let mut relay = ReplyStreamHandler::new(tx, abort);
    assert!(relay.text("x").is_ok());
    assert!(relay.done().is_ok());
    drop(relay);
    let events: Vec<ReplyStreamEvent> = rx.iter().collect();
    assert_eq!(events.len(), 2);
    assert_eq!(events[0], ReplyStreamEvent::Text("x".to_string()));
    assert_eq!(events[1], ReplyStreamEvent::Done);
}

#[test]
fn send_failure_with_abort_set_is_suppressed() {
    let (tx, rx) = unbounded();
    let abort = SharedAbortSignal::new();
    let mut relay = ReplyStreamHandler::new(tx, abort.clone());
    drop(rx);
    abort.set();
    assert!(relay.text("hi").is_ok());
    assert!(relay.done().is_ok());
    assert_eq!(relay.get_buffer(), "hi");
}

#[test]
fn send_failure_without_abort_surfaces() {
    let (tx, rx) = unbounded();
    let abort = SharedAbortSignal::new();
    let mut relay = ReplyStreamHandler::new(tx, abort);
    drop(rx);
    assert_eq!(relay.text("hi"), Err(ReplError::SendTextFailed));
    assert_eq!(relay.done(), Err(ReplError::SendDoneFailed));
    assert_eq!(relay.get_buffer(), "hi");
}

#[test]
fn abort_handle_from_relay_is_shared() {
    let (tx, rx) = unbounded();
    let abort = SharedAbortSignal::new();
    let relay = ReplyStreamHandler::new(tx, abort.clone());
    let handle = relay.get_abort();
    assert!(!abort.aborted());
    handle.set();
    assert!(abort.aborted());
    abort.reset();
    assert!(!handle.aborted());
    drop(rx);
}

#[test]
fn resolve_send_follows_the_suppression_rule() {
    assert_eq!(resolve_send(Ok(()), true), Ok(()));
    assert_eq!(resolve_send(Ok(()), false), Ok(()));
    assert_eq!(resolve_send(Err(ReplError::SendTextFailed), true), Ok(()));
    assert_eq!(
        resolve_send(Err(ReplError::SendTextFailed), false),
        Err(ReplError::SendTextFailed)
    );
}

#[test]
fn send_error_messages() {
    assert_eq!(
        ReplError::SendTextFailed.message(),
        "Failed to send StreamEvent:Text"
    );
    assert_eq!(
        ReplError::SendDoneFailed.message(),
        "Failed to send StreamEvent:Done"
    );
}
