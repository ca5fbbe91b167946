use event_relay::channel::{BroadcastChannel, PublishOutcome, RecvOutcome, CAPACITY};
use event_relay::event::Event;

fn ev(name: &str, data: &str) -> Event {
    Event::new(name.to_owned(), data.to_owned())
}

fn expect_event(r: RecvOutcome) -> Event {
    match r {
        RecvOutcome::Received(e) => e,
        other => panic!("expected an event, got {:?}", other),
    }
}

#[test]
fn publish_without_subscribers_always_succeeds() {
    let mut ch = BroadcastChannel::new();
    for i in 0..100u32 {
        let outcome = ch.publish(ev("tick", &i.to_string()));
        assert_eq!(outcome, PublishOutcome::Dropped);
        assert!(ch.retained() <= CAPACITY);
    }
    assert_eq!(ch.retained(), 0);
    assert_eq!(ch.reader_count(), 0);
}

#[test]
fn ring_never_exceeds_capacity() {
    let mut ch = BroadcastChannel::new();
    let cur = ch.subscribe();
    for i in 0..100u32 {
        let outcome = ch.publish(ev("tick", &i.to_string()));
        assert_eq!(outcome, PublishOutcome::Delivered);
        assert!(ch.retained() <= CAPACITY);
    }
    assert_eq!(ch.retained(), CAPACITY);
    ch.release(cur);
}

#[test]
fn subscriber_gets_events_in_publish_order() {
    let mut ch = BroadcastChannel::new();
    let mut cur = ch.subscribe();
    for i in 0..5u32 {
        ch.publish(ev("n", &i.to_string()));
    }
    for i in 0..5u32 {
        let e = expect_event(cur.receive(&ch));
        assert_eq!(e.name, "n");
        assert_eq!(e.data, i.to_string());
    }
    assert_eq!(cur.receive(&ch), RecvOutcome::Pending);
}

#[test]
fn subscriber_sees_only_events_after_attachment() {
    let mut ch = BroadcastChannel::new();
    let mut warmup = ch.subscribe();
    ch.publish(ev("before", "x"));
    let mut cur = ch.subscribe();
    assert_eq!(cur.receive(&ch), RecvOutcome::Pending);
    ch.publish(ev("after", "y"));
    let e = expect_event(cur.receive(&ch));
    assert_eq!(e.name, "after");
    let first = expect_event(warmup.receive(&ch));
    assert_eq!(first.name, "before");
}

#[test]
fn stalled_subscriber_gets_exact_overflow_count_then_resumes() {
    let mut ch = BroadcastChannel::new();
    let mut cur = ch.subscribe();
    for i in 0..20u32 {
        ch.publish(ev("n", &i.to_string()));
    }
    assert_eq!(cur.receive(&ch), RecvOutcome::Overflowed(4));
    for i in 4..20u32 {
        let e = expect_event(cur.receive(&ch));
        assert_eq!(e.data, i.to_string());
    }
    assert_eq!(cur.receive(&ch), RecvOutcome::Pending);
    ch.publish(ev("n", "20"));
    let e = expect_event(cur.receive(&ch));
    assert_eq!(e.data, "20");
}

#[test]
fn two_subscribers_see_same_order() {
    let mut ch = BroadcastChannel::new();
    let mut a = ch.subscribe();
    let mut b = ch.subscribe();
    for i in 0..10u32 {
        ch.publish(ev("n", &i.to_string()));
    }
    let seen_a: Vec<String> = (0..10).map(|_| expect_event(a.receive(&ch)).data).collect();
    let seen_b: Vec<String> = (0..10).map(|_| expect_event(b.receive(&ch)).data).collect();
    assert_eq!(seen_a, seen_b);
    let expected: Vec<String> = (0..10u32).map(|i| i.to_string()).collect();
    assert_eq!(seen_a, expected);
}

#[test]
fn close_drains_then_reports_closed() {
    let mut ch = BroadcastChannel::new();
    let mut cur = ch.subscribe();
    ch.publish(ev("last", "words"));
    ch.close();
    assert!(ch.is_closed());
    let e = expect_event(cur.receive(&ch));
    assert_eq!(e.name, "last");
    assert_eq!(cur.receive(&ch), RecvOutcome::Closed);
    assert_eq!(cur.receive(&ch), RecvOutcome::Closed);
}

#[test]
fn release_detaches_reader() {
    let mut ch = BroadcastChannel::new();
    let cur = ch.subscribe();
    assert_eq!(ch.reader_count(), 1);
    ch.release(cur);
    assert_eq!(ch.reader_count(), 0);
    let outcome = ch.publish(ev("n", "0"));
    assert_eq!(outcome, PublishOutcome::Dropped);
}
