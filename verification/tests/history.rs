use waft::history::{History, DEFAULT_HISTORY_CAPACITY};
use waft::message::{Message, MessageType};

fn line(n: usize) -> Message {
    Message::new(MessageType::Text, "alice".to_string(), Some(format!("line {}", n)))
}

#[test]
fn a_new_history_is_empty() {
    let history = History::new(3);
    assert_eq!(history.snapshot(), Vec::<Message>::new());
    assert_eq!(history.len(), 0);
    assert_eq!(history.capacity(), 3);
}

#[test]
fn history_keeps_all_below_its_capacity() {
    let mut history = History::new(3);
    history.append(line(1));
    history.append(line(2));
    assert_eq!(history.snapshot(), vec![line(1), line(2)]);
    history.append(line(3));
    assert_eq!(history.snapshot(), vec![line(1), line(2), line(3)]);
    assert_eq!(history.len(), 3);
}

#[test]
fn history_keeps_the_last_when_full() {
    let mut history = History::new(3);
    for n in 1..=5 {
        history.append(line(n));
    }
    assert_eq!(history.snapshot(), vec![line(3), line(4), line(5)]);
    assert_eq!(history.len(), 3);
}

#[test]
fn history_of_the_default_capacity_keeps_twenty_five() {
    assert_eq!(DEFAULT_HISTORY_CAPACITY, 25);
    let mut history = History::new(DEFAULT_HISTORY_CAPACITY);
    for n in 0..60 {
        history.append(line(n));
    }
    let expected: Vec<Message> = (35..60).map(line).collect();
    assert_eq!(history.snapshot(), expected);
}

#[test]
fn history_of_capacity_one_keeps_the_newest() {
    let mut history = History::new(1);
    history.append(line(1));
    history.append(line(2));
    assert_eq!(history.snapshot(), vec![line(2)]);
}

#[test]
fn history_of_capacity_zero_keeps_nothing() {
    let mut history = History::new(0);
    history.append(line(1));
    assert_eq!(history.snapshot(), Vec::<Message>::new());
    assert_eq!(history.len(), 0);
}

#[test]
fn snapshot_is_a_copy() {
    let mut history = History::new(2);
    history.append(line(1));
    let before = history.snapshot();
    history.append(line(2));
    history.append(line(3));
    assert_eq!(before, vec![line(1)]);
    assert_eq!(history.snapshot(), vec![line(2), line(3)]);
}
