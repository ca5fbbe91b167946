use event_relay::channel::{BroadcastChannel, RecvOutcome};
use event_relay::cli::{Cli, LogLevel};
use event_relay::event::Event;
use event_relay::publisher::{handle_publish, PublishStatus};
use event_relay::session::{
    greeting, on_receive, on_send_result, ExitReason, LoopStep, SessionAction, SEND_TIMEOUT_SECS,
};

fn ev(name: &str, data: &str) -> Event {
    Event::new(name.to_owned(), data.to_owned())
}

#[test]
fn publish_endpoint_succeeds_with_no_subscribers() {
    let mut ch = BroadcastChannel::new();
    assert_eq!(ch.reader_count(), 0);
    let status = handle_publish(&mut ch, Some(ev("alert", "disk full")));
    assert_eq!(status, PublishStatus::Accepted);
}

#[test]
fn malformed_payload_is_client_error_and_never_reaches_channel() {
    let mut ch = BroadcastChannel::new();
    let mut cur = ch.subscribe();
    let status = handle_publish(&mut ch, None);
    assert_eq!(status, PublishStatus::BadRequest);
    assert_eq!(ch.retained(), 0);
    assert_eq!(cur.receive(&ch), RecvOutcome::Pending);
}

#[test]
fn published_alert_reaches_connected_subscriber() {
    let mut ch = BroadcastChannel::new();
    let mut cur = ch.subscribe();
    let hello = greeting();
    assert_eq!(hello.name, "server");
    assert_eq!(hello.data, "hello");
    let status = handle_publish(&mut ch, Some(ev("alert", "disk full")));
    assert_eq!(status, PublishStatus::Accepted);
    match cur.receive(&ch) {
        RecvOutcome::Received(e) => {
            assert_eq!(e.name, "alert");
            assert_eq!(e.data, "disk full");
        }
        other => panic!("expected the alert, got {:?}", other),
    }
}

#[test]
fn session_forwards_events_and_skips_overflow() {
    let forwarded = on_receive(RecvOutcome::Received(ev("alert", "disk full")));
    match forwarded {
        SessionAction::Forward(e) => {
            assert_eq!(e.name, "alert");
            assert_eq!(e.data, "disk full");
        }
        other => panic!("expected a forward, got {:?}", other),
    }
    assert_eq!(on_receive(RecvOutcome::Overflowed(7)), SessionAction::ReportSkip(7));
    assert_eq!(on_receive(RecvOutcome::Pending), SessionAction::Wait);
    assert_eq!(
        on_receive(RecvOutcome::Closed),
        SessionAction::End(ExitReason::ChannelClosed)
    );
}

#[test]
fn failed_send_ends_only_that_session() {
    assert_eq!(on_send_result(true), LoopStep::Continue);
    assert_eq!(
        on_send_result(false),
        LoopStep::End(ExitReason::SendFailed)
    );
    assert_eq!(SEND_TIMEOUT_SECS, 30);
}

#[test]
fn stalled_session_does_not_block_publisher_or_other_subscriber() {
    let mut ch = BroadcastChannel::new();
    let stalled = ch.subscribe();
    let mut lively = ch.subscribe();
    // The stalled session's send missed its deadline: the decision is to end
    // that session alone.
    assert_eq!(
        on_send_result(false),
        LoopStep::End(ExitReason::SendFailed)
    );
    ch.release(stalled);
    // The publisher and the second subscriber proceed normally.
    let status = handle_publish(&mut ch, Some(ev("alert", "disk full")));
    assert_eq!(status, PublishStatus::Accepted);
    match lively.receive(&ch) {
        RecvOutcome::Received(e) => assert_eq!(e.name, "alert"),
        other => panic!("expected the alert, got {:?}", other),
    }
}

#[test]
fn log_level_follows_flags() {
    let base = Cli { quiet: false, verbosity: 0, bind: None };
    assert_eq!(base.log_level(), LogLevel::Info);
    let debug = Cli { quiet: false, verbosity: 1, bind: None };
    assert_eq!(debug.log_level(), LogLevel::Debug);
    let trace = Cli { quiet: false, verbosity: 5, bind: None };
    assert_eq!(trace.log_level(), LogLevel::Trace);
    let quiet = Cli { quiet: true, verbosity: 5, bind: None };
    assert_eq!(quiet.log_level(), LogLevel::Error);
}

#[test]
fn bind_addr_defaults_and_overrides() {
    let default = Cli { quiet: false, verbosity: 0, bind: None };
    assert_eq!(default.bind_addr(), "0.0.0.0:8090");
    let custom = Cli { quiet: false, verbosity: 0, bind: Some("127.0.0.1:9000".to_owned()) };
    assert_eq!(custom.bind_addr(), "127.0.0.1:9000");
}

#[test]
fn event_clone_preserves_fields() {
    let e = ev("alert", "disk full");
    let c = e.clone();
    assert_eq!(c, e);
    assert_eq!(c.name, "alert");
    assert_eq!(c.data, "disk full");
}
