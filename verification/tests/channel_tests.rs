use cacheckpointmanager::channel::EventChannel;
use cacheckpointmanager::DetectionEvent;

fn event(id: &str) -> DetectionEvent {
    DetectionEvent::new(String::from(id), 42)
}

#[test]
fn channel_is_fifo() {
    let mut ch = EventChannel::new(4);
    assert!(ch.is_producer_alive());
    assert_eq!(ch.len(), 0);
    assert!(ch.push(event("first")));
    assert!(ch.push(event("second")));
    assert_eq!(ch.len(), 2);
    assert_eq!(ch.pop().unwrap().identifier, "first");
    assert!(ch.push(event("third")));
    assert_eq!(ch.pop().unwrap().identifier, "second");
    assert_eq!(ch.pop().unwrap().identifier, "third");
    assert!(ch.pop().is_none());
}

#[test]
fn full_channel_refuses_the_newest_event() {
    let mut ch = EventChannel::new(2);
    assert!(ch.push(event("a")));
    assert!(ch.push(event("b")));
    assert!(!ch.push(event("c")));
    assert_eq!(ch.len(), 2);
    assert_eq!(ch.pop().unwrap().identifier, "a");
    assert_eq!(ch.pop().unwrap().identifier, "b");
    assert!(ch.pop().is_none());
}

#[test]
fn closing_the_producer_keeps_queued_events() {
    let mut ch = EventChannel::new(8);
    assert!(ch.push(event("queued")));
    ch.close_producer();
    assert!(!ch.is_producer_alive());
    assert_eq!(ch.pop().unwrap().identifier, "queued");
    assert!(ch.pop().is_none());
}
