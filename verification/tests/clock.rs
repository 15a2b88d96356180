use mongo_client_desktop::demo::clock::{now, Clock, Message, Timestamp, NANOS_PER_SEC, TICK_MILLIS};

fn nanos_of(timestamp: Timestamp) -> u32 {
    match timestamp {
        Timestamp::Since { nanos, .. } => nanos,
        Timestamp::Before { nanos, .. } => nanos,
    }
}

#[test]
fn text_clock_title() {
    let clock = Clock::starting_at(Timestamp::Since { secs: 0, nanos: 0 });
    assert_eq!(clock.title(), "Clock - Iced");
}

#[test]
fn text_clock_ticks_once_a_second() {
    assert_eq!(TICK_MILLIS, 1000);
    assert_eq!(NANOS_PER_SEC, 1_000_000_000);
}

#[test]
fn text_clock_shows_what_it_started_at() {
    let start = Timestamp::Since { secs: 1_700_000_000, nanos: 123_456_789 };
    let clock = Clock::starting_at(start);
    assert_eq!(clock.shown(), start);
}

#[test]
fn seconds_since_epoch_are_the_whole_seconds() {
    let clock = Clock::starting_at(Timestamp::Since { secs: 1_700_000_000, nanos: 999_999_999 });
    assert_eq!(clock.seconds_since_epoch(), 1_700_000_000);
}

#[test]
fn seconds_at_the_epoch_are_zero() {
    let clock = Clock::starting_at(Timestamp::Since { secs: 0, nanos: 0 });
    assert_eq!(clock.seconds_since_epoch(), 0);
}

#[test]
fn seconds_before_the_epoch_are_zero() {
    let clock = Clock::starting_at(Timestamp::Before { secs: 86_400, nanos: 5 });
    assert_eq!(clock.seconds_since_epoch(), 0);
}

#[test]
fn seconds_reach_the_largest_value() {
    let clock = Clock::starting_at(Timestamp::Since { secs: u64::MAX, nanos: 0 });
    assert_eq!(clock.seconds_since_epoch(), u64::MAX);
}

#[test]
fn show_replaces_the_time_wholesale() {
    let mut clock = Clock::starting_at(Timestamp::Since { secs: 10, nanos: 20 });
    let later = Timestamp::Since { secs: 11, nanos: 0 };
    clock.show(later);
    assert_eq!(clock.shown(), later);
    assert_eq!(clock.seconds_since_epoch(), 11);
    let earlier = Timestamp::Before { secs: 3, nanos: 4 };
    clock.show(earlier);
    assert_eq!(clock.shown(), earlier);
    assert_eq!(clock.seconds_since_epoch(), 0);
}

#[test]
fn now_reads_a_time_after_the_epoch() {
    let sampled = now();
    assert!(nanos_of(sampled) < NANOS_PER_SEC);
    assert!(matches!(sampled, Timestamp::Since { secs, .. } if secs > 0));
}

#[test]
fn new_text_clock_shows_the_time_of_its_making() {
    let before = now();
    let clock = Clock::new();
    let after = now();
    assert!(nanos_of(clock.shown()) < NANOS_PER_SEC);
    let (Timestamp::Since { secs: low, .. }, Timestamp::Since { secs: high, .. }) = (before, after)
    else {
        panic!("the system clock is set before the epoch");
    };
    if low <= high {
        let shown = clock.seconds_since_epoch();
        assert!(low <= shown && shown <= high);
    }
}

#[test]
fn tick_puts_the_time_of_the_tick_on_show() {
    let mut clock = Clock::starting_at(Timestamp::Before { secs: 1, nanos: 0 });
    assert_eq!(clock.seconds_since_epoch(), 0);
    let before = now();
    clock.update(Message::Tick);
    let after = now();
    assert!(nanos_of(clock.shown()) < NANOS_PER_SEC);
    assert!(matches!(clock.shown(), Timestamp::Since { .. }));
    let (Timestamp::Since { secs: low, .. }, Timestamp::Since { secs: high, .. }) = (before, after)
    else {
        panic!("the system clock is set before the epoch");
    };
    if low <= high {
        let shown = clock.seconds_since_epoch();
        assert!(low <= shown && shown <= high);
    }
}
