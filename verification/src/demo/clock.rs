//! A text clock: the time as it was when last sampled, once a second.

use vstd::prelude::*;

verus! {

/// `std::time::SystemTime`, a reading of the system clock. It is passed on
/// as it comes: nothing inside it is known here.
#[verifier::external_type_specification]
#[verifier::external_body]
pub struct ExSystemTime(std::time::SystemTime);

/// `std::time::SystemTime::now`: the system clock's current time. Nothing is
/// claimed of the value.
pub assume_specification[ std::time::SystemTime::now ]() -> (now: std::time::SystemTime)
;

/// `std::time::SystemTime::duration_since`, with `std::time::UNIX_EPOCH` as
/// the earlier time: how far `sampled` lies from the epoch, and on which
/// side. The distance is a `Duration` either way (for a time before the
/// epoch it comes from `SystemTimeError::duration`), taken apart by
/// `Duration::as_secs` and `Duration::subsec_nanos`. All that is claimed is
/// what the last of these documents: the nanoseconds are less than a second.
#[verifier::external_body]
fn since_epoch(sampled: &std::time::SystemTime) -> (timestamp: Timestamp)
    ensures
        timestamp.wf(),
{
    match sampled.duration_since(std::time::UNIX_EPOCH) {
        Ok(since) => Timestamp::Since { secs: since.as_secs(), nanos: since.subsec_nanos() },
        Err(before) => Timestamp::Before {
            secs: before.duration().as_secs(),
            nanos: before.duration().subsec_nanos(),
        },
    }
}

/// How many milliseconds the front end lets pass between two ticks.
pub const TICK_MILLIS: u64 = 1000;

/// The nanoseconds in a second.
pub const NANOS_PER_SEC: u32 = 1_000_000_000;

/// A point in time, by its distance from the Unix epoch.
#[derive(Debug, Clone, Copy, PartialEq, Eq, Structural)]
pub enum Timestamp {
    /// At the epoch or after it, by `secs` seconds and `nanos` nanoseconds.
    Since { secs: u64, nanos: u32 },
    /// Before the epoch, by `secs` seconds and `nanos` nanoseconds.
    Before { secs: u64, nanos: u32 },
}

impl Timestamp {
    /// Whether the nanoseconds are less than a second.
    pub open spec fn wf(self) -> bool {
        match self {
            Timestamp::Since { nanos, .. } => nanos < NANOS_PER_SEC,
            Timestamp::Before { nanos, .. } => nanos < NANOS_PER_SEC,
        }
    }

    /// The whole seconds from the epoch to this time; zero for a time before
    /// the epoch.
    pub open spec fn whole_seconds(self) -> u64 {
        match self {
            Timestamp::Since { secs, .. } => secs,
            Timestamp::Before { .. } => 0,
        }
    }
}

/// The system clock's time right now.
pub fn now() -> (now: Timestamp)
    ensures
        now.wf(),
{
    let sampled = std::time::SystemTime::now();
    since_epoch(&sampled)
}

/// What can reach the clock.
#[derive(Debug, Clone, Copy, PartialEq, Eq, Structural)]
pub enum Message {
    /// A second has passed.
    Tick,
}

/// The time as it was when last sampled. Nothing earlier is kept.
pub struct Clock {
    shown: Timestamp,
}

impl View for Clock {
    type V = Timestamp;

    closed spec fn view(&self) -> Timestamp {
        self.shown
    }
}

impl Clock {
    /// A clock that shows the time right now.
    pub fn new() -> (clock: Clock)
        ensures
            clock@.wf(),
    {
        Clock::starting_at(now())
    }

    /// A clock that shows `timestamp`.
    pub fn starting_at(timestamp: Timestamp) -> (clock: Clock)
        ensures
            clock@ == timestamp,
    {
        Clock { shown: timestamp }
    }

    /// The window title.
    pub fn title(&self) -> (title: String)
        ensures
            title@ == "Clock - Iced"@,
    {
        "Clock - Iced".to_owned()
    }

    /// The time on show.
    pub fn shown(&self) -> (timestamp: Timestamp)
        ensures
            timestamp == self@,
    {
        self.shown
    }

    /// The whole seconds from the epoch to the time on show; zero if that
    /// time lies before the epoch.
    pub fn seconds_since_epoch(&self) -> (seconds: u64)
        ensures
            seconds == self@.whole_seconds(),
    {
        match self.shown {
            Timestamp::Since { secs, .. } => secs,
            Timestamp::Before { .. } => 0,
        }
    }

    /// Puts `timestamp` on show in place of the time that was there.
    pub fn show(&mut self, timestamp: Timestamp)
        ensures
            final(self)@ == timestamp,
    {
        self.shown = timestamp;
    }

    /// Takes one message in: on a tick, the time right now replaces the time
    /// on show.
    pub fn update(&mut self, message: Message)
        ensures
            final(self)@.wf(),
    {
        match message {
            Message::Tick => {
                self.show(now());
            },
        }
    }
}

} // verus!
