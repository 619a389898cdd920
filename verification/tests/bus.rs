use streamchat::bus::EventEmitter;

#[test]
fn test_event_emitter() {
    let mut bus = EventEmitter::new(16);
    let id = bus.on("message");
    bus.emit("message", "Hello World");
    let payload = bus.next_event(id).expect("one event should be pending");
    assert_eq!(payload.event_name, "message");
    assert_eq!(payload.data, "Hello World");
    assert!(bus.next_event(id).is_none());
}

#[test]
fn test_emit_without_subscribers_is_noop() {
    let mut bus = EventEmitter::new(16);
    assert_eq!(bus.subscriber_count(), 0);
    bus.emit("x", "lost");
    assert_eq!(bus.subscriber_count(), 0);
}

#[test]
fn test_late_subscriber_sees_only_later_events() {
    let mut bus = EventEmitter::new(16);
    bus.emit("x", "before");
    let id = bus.on("x");
    assert!(bus.next_event(id).is_none());
    bus.emit("x", "after");
    assert_eq!(bus.next_event(id).unwrap().data, "after");
}

#[test]
fn test_fan_out_two_subscribers() {
    let mut bus = EventEmitter::new(16);
    let a = bus.on("x");
    let b = bus.on("x");
    bus.emit("x", "42");
    assert_eq!(bus.next_event(a).unwrap().data, "42");
    assert_eq!(bus.next_event(b).unwrap().data, "42");
}

#[test]
fn test_subscriber_filters_by_name() {
    let mut bus = EventEmitter::new(16);
    let a = bus.on("a");
    bus.emit("b", "not for a");
    assert!(bus.next_event(a).is_none());
}

#[test]
fn test_lagging_subscriber_loses_oldest() {
    let mut bus = EventEmitter::new(2);
    let id = bus.on("x");
    bus.emit("x", "e1");
    bus.emit("x", "e2");
    bus.emit("x", "e3");
    assert_eq!(bus.next_event(id).unwrap().data, "e2");
    assert_eq!(bus.next_event(id).unwrap().data, "e3");
    assert!(bus.next_event(id).is_none());
}

#[test]
fn test_events_delivered_in_order() {
    let mut bus = EventEmitter::new(16);
    let id = bus.on("x");
    bus.emit("x", "first");
    bus.emit("x", "second");
    bus.emit("x", "third");
    assert_eq!(bus.next_event(id).unwrap().data, "first");
    assert_eq!(bus.next_event(id).unwrap().data, "second");
    assert_eq!(bus.next_event(id).unwrap().data, "third");
}

#[test]
fn test_next_event_unknown_id() {
    let mut bus = EventEmitter::new(16);
    assert!(bus.next_event(7).is_none());
}
