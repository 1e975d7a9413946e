use waft::bus::Bus;
use waft::message::{Message, MessageType};

fn line(n: usize) -> Message {
    Message::new(MessageType::Text, "alice".to_string(), Some(format!("line {}", n)))
}

#[test]
fn subscribers_get_the_smallest_free_id() {
    let mut bus = Bus::new();
    assert_eq!(bus.subscribe(), Some(0));
    assert_eq!(bus.subscribe(), Some(1));
    assert_eq!(bus.subscribe(), Some(2));
    bus.unsubscribe(1);
    assert!(!bus.is_subscribed(1));
    assert!(bus.is_subscribed(0));
    assert!(bus.is_subscribed(2));
    assert_eq!(bus.subscribe(), Some(1));
    bus.unsubscribe(0);
    bus.unsubscribe(2);
    assert_eq!(bus.subscribe(), Some(0));
    assert_eq!(bus.subscribe(), Some(2));
    assert_eq!(bus.subscribe(), Some(3));
}

#[test]
fn every_subscriber_gets_what_is_published() {
    let mut bus = Bus::new();
    let a = bus.subscribe().unwrap();
    let b = bus.subscribe().unwrap();
    bus.publish(&line(1));
    assert_eq!(bus.pending(a), 1);
    assert_eq!(bus.pending(b), 1);
    assert_eq!(bus.poll(a), Some(line(1)));
    assert_eq!(bus.poll(b), Some(line(1)));
    assert_eq!(bus.poll(a), None);
}

#[test]
fn a_subscriber_gets_messages_in_publishing_order() {
    let mut bus = Bus::new();
    let a = bus.subscribe().unwrap();
    let b = bus.subscribe().unwrap();
    bus.publish(&line(1));
    bus.publish(&line(2));
    assert_eq!(bus.poll(a), Some(line(1)));
    bus.publish(&line(3));
    assert_eq!(bus.drain(b), vec![line(1), line(2), line(3)]);
    assert_eq!(bus.poll(a), Some(line(2)));
    assert_eq!(bus.poll(a), Some(line(3)));
    assert_eq!(bus.poll(a), None);
    assert_eq!(bus.drain(b), Vec::<Message>::new());
}

#[test]
fn a_subscriber_misses_what_was_published_before() {
    let mut bus = Bus::new();
    bus.publish(&line(1));
    let a = bus.subscribe().unwrap();
    assert_eq!(bus.pending(a), 0);
    bus.publish(&line(2));
    assert_eq!(bus.drain(a), vec![line(2)]);
}

#[test]
fn a_reused_id_starts_with_an_empty_inbox() {
    let mut bus = Bus::new();
    let a = bus.subscribe().unwrap();
    bus.publish(&line(1));
    bus.unsubscribe(a);
    assert_eq!(bus.pending(a), 0);
    let again = bus.subscribe().unwrap();
    assert_eq!(again, a);
    assert_eq!(bus.poll(again), None);
}

#[test]
fn strangers_get_nothing() {
    let mut bus = Bus::new();
    bus.publish(&line(1));
    assert!(!bus.is_subscribed(7));
    assert_eq!(bus.pending(7), 0);
    assert_eq!(bus.poll(7), None);
    assert_eq!(bus.drain(7), Vec::<Message>::new());
    bus.unsubscribe(7);
    assert!(!bus.is_subscribed(7));
    assert!(!bus.is_subscribed(0));
}
