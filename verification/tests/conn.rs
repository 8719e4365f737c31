//! Connection lifecycle tests: cooperative shutdown, idempotent
//! teardown, and the reader/writer loop decisions.

use vmix_rs::conn::{
    ConnectionState, Lifecycle, LoopAction, PeekOutcome, ReadEvent, WriteEvent, WriterAction,
};

#[test]
fn fresh_connection_is_active() {
    let s = ConnectionState::new();
    assert_eq!(s.lifecycle(), Lifecycle::Active);
    assert!(!s.should_stop());
    assert!(s.socket_present);
}

#[test]
fn teardown_twice_is_harmless() {
    // explicit disconnect followed by destruction: the second teardown
    // must not close the socket again and must leave the state unchanged
    let mut s = ConnectionState::new();
    let close_first = s.teardown();
    assert!(close_first);
    let after_first = s;
    let close_second = s.teardown();
    assert!(!close_second);
    assert_eq!(s, after_first);
    assert_eq!(s.lifecycle(), Lifecycle::Closed);
}

#[test]
fn shutdown_flag_is_monotonic() {
    let mut s = ConnectionState::new();
    s.request_shutdown();
    assert!(s.should_stop());
    assert_eq!(s.lifecycle(), Lifecycle::Draining);
    s.request_shutdown();
    assert!(s.should_stop());
}

#[test]
fn reader_survives_timeouts_and_bad_frames() {
    let mut s = ConnectionState::new();
    assert_eq!(s.reader_step(ReadEvent::TimedOut), LoopAction::Continue);
    assert_eq!(s.reader_step(ReadEvent::WouldBlock), LoopAction::Continue);
    assert_eq!(s.reader_step(ReadEvent::BadFrame), LoopAction::Continue);
    assert_eq!(s.reader_step(ReadEvent::Frame), LoopAction::Continue);
    assert!(!s.should_stop());
}

#[test]
fn reader_stops_and_flags_on_connection_loss() {
    let mut s = ConnectionState::new();
    assert_eq!(s.reader_step(ReadEvent::ConnectionLost), LoopAction::Stop);
    assert!(s.error_observed);
    // the writer sees the flag on its next iteration
    assert!(s.should_stop());
}

#[test]
fn reader_stops_quietly_when_consumer_gone() {
    let mut s = ConnectionState::new();
    assert_eq!(s.reader_step(ReadEvent::ForwardFailed), LoopAction::Stop);
    assert!(!s.error_observed);
}

#[test]
fn writer_writes_every_received_command() {
    // a sequence of commands polled from the channel: each one yields a
    // write decision, none is dropped
    let mut s = ConnectionState::new();
    for _ in 0..100 {
        let action = s.writer_poll(WriteEvent::Received { quit: false });
        assert_eq!(action, WriterAction::Write { last: false });
        assert_eq!(s.writer_wrote(true, false), LoopAction::Continue);
    }
    assert!(!s.should_stop());
}

#[test]
fn writer_quit_is_final() {
    let mut s = ConnectionState::new();
    let action = s.writer_poll(WriteEvent::Received { quit: true });
    assert_eq!(action, WriterAction::Write { last: true });
    // the loop exits after the quit command whether or not the write worked
    assert_eq!(s.writer_wrote(true, true), LoopAction::Stop);
    assert!(!s.error_observed);
}

#[test]
fn writer_failure_flags_error() {
    let mut s = ConnectionState::new();
    assert_eq!(s.writer_wrote(false, false), LoopAction::Stop);
    assert!(s.error_observed);
}

#[test]
fn writer_polls_through_timeouts() {
    let s = ConnectionState::new();
    assert_eq!(s.writer_poll(WriteEvent::TimedOut), WriterAction::Continue);
    assert_eq!(s.writer_poll(WriteEvent::Disconnected), WriterAction::Stop);
}

#[test]
fn liveness_check_decisions() {
    let s = ConnectionState::new();
    assert!(s.connection_alive(PeekOutcome::Data));
    assert!(s.connection_alive(PeekOutcome::WouldBlock));
    assert!(s.connection_alive(PeekOutcome::OtherError));
    assert!(s.connection_alive(PeekOutcome::LockBusy));
    assert!(!s.connection_alive(PeekOutcome::Lost));
    assert!(!s.connection_alive(PeekOutcome::NoSocket));

    let mut dead = ConnectionState::new();
    dead.observe_error();
    assert!(!dead.connection_alive(PeekOutcome::Data));

    let mut down = ConnectionState::new();
    down.request_shutdown();
    assert!(!down.connection_alive(PeekOutcome::Data));
}
