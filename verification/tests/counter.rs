use mongo_client_desktop::demo::counter::{Counter, Message};

#[test]
fn counter_starts_at_zero() {
    let counter = Counter::new();
    assert_eq!(counter.value(), 0);
}

#[test]
fn counter_title() {
    let counter = Counter::new();
    assert_eq!(counter.title(), "Demo-Iced: Counter");
}

#[test]
fn increment_adds_one() {
    let mut counter = Counter::new();
    counter.update(Message::IncrementPressed);
    assert_eq!(counter.value(), 1);
}

#[test]
fn decrement_takes_one() {
    let mut counter = Counter::new();
    counter.update(Message::DecrementPressed);
    assert_eq!(counter.value(), -1);
}

#[test]
fn increment_then_decrement_returns() {
    let mut counter = Counter::new();
    counter.update(Message::IncrementPressed);
    assert_eq!(counter.value(), 1);
    counter.update(Message::DecrementPressed);
    assert_eq!(counter.value(), 0);
}

#[test]
fn interleaved_presses_end_at_increments_less_decrements() {
    let presses = [
        Message::IncrementPressed,
        Message::DecrementPressed,
        Message::DecrementPressed,
        Message::IncrementPressed,
        Message::IncrementPressed,
        Message::DecrementPressed,
        Message::DecrementPressed,
        Message::DecrementPressed,
        Message::IncrementPressed,
        Message::DecrementPressed,
    ];
    let mut counter = Counter::new();
    let mut increments = 0;
    let mut decrements = 0;
    for press in presses {
        match press {
            Message::IncrementPressed => increments += 1,
            Message::DecrementPressed => decrements += 1,
        }
        counter.update(press);
        assert_eq!(counter.value(), increments - decrements);
    }
    assert_eq!(increments, 4);
    assert_eq!(decrements, 6);
    assert_eq!(counter.value(), -2);
}

#[test]
fn order_of_presses_does_not_matter() {
    let mut up_first = Counter::new();
    let mut down_first = Counter::new();
    for _ in 0..3 {
        up_first.update(Message::IncrementPressed);
    }
    for _ in 0..2 {
        up_first.update(Message::DecrementPressed);
    }
    for _ in 0..2 {
        down_first.update(Message::DecrementPressed);
    }
    for _ in 0..3 {
        down_first.update(Message::IncrementPressed);
    }
    assert_eq!(up_first.value(), 1);
    assert_eq!(down_first.value(), 1);
}

#[test]
fn many_presses_count_up() {
    let mut counter = Counter::new();
    for _ in 0..100_000 {
        counter.update(Message::IncrementPressed);
    }
    assert_eq!(counter.value(), 100_000);
}
