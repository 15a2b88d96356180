//! An analog clock: three hands, drawn anew only when the second changes.
//!
//! The front end samples the time twice a second and sends each sample as a
//! [`Message::Tick`]. The clock keeps the face it has drawn for as long as
//! the samples agree with the one it holds.

use vstd::prelude::*;

verus! {

/// `time::OffsetDateTime`, a date and time with its offset from UTC. It is
/// passed on as it comes: nothing inside it is known here.
#[verifier::external_type_specification]
#[verifier::external_body]
pub struct ExOffsetDateTime(time::OffsetDateTime);

/// `time::error::IndeterminateOffset`, the error of
/// `time::OffsetDateTime::now_local`. It holds nothing.
#[verifier::external_type_specification]
#[verifier::external_body]
pub struct ExIndeterminateOffset(time::error::IndeterminateOffset);

/// `time::OffsetDateTime::now_utc`: the current date and time in UTC, from
/// the system clock. Nothing is claimed of the value.
pub assume_specification[ time::OffsetDateTime::now_utc ]() -> (now: time::OffsetDateTime)
;

/// `time::OffsetDateTime::now_local`: the current date and time in the
/// machine's local offset, or an error where that offset cannot be found.
/// Nothing is claimed of the outcome.
pub assume_specification[ time::OffsetDateTime::now_local ]() -> (now: Result<
    time::OffsetDateTime,
    time::error::IndeterminateOffset,
>)
;

/// `time::OffsetDateTime::hour`: the clock hour, which is below 24.
pub assume_specification[ time::OffsetDateTime::hour ](t: time::OffsetDateTime) -> (hour: u8)
    ensures
        hour < 24,
;

/// `time::OffsetDateTime::minute`: the minute within the hour, which is
/// below 60.
pub assume_specification[ time::OffsetDateTime::minute ](t: time::OffsetDateTime) -> (minute: u8)
    ensures
        minute < 60,
;

/// `time::OffsetDateTime::second`: the second within the minute, which is
/// below 60.
pub assume_specification[ time::OffsetDateTime::second ](t: time::OffsetDateTime) -> (second: u8)
    ensures
        second < 60,
;

/// How many milliseconds the front end lets pass between two samples.
pub const TICK_MILLIS: u64 = 500;

/// The marks that the hour hand moves over in a full turn.
pub const HOUR_MARKS: u8 = 12;

/// The marks that the minute hand and the second hand move over in a full
/// turn.
pub const MINUTE_MARKS: u8 = 60;

/// A time of day in whole seconds: what one sample of the clock shows.
#[derive(Debug, Clone, Copy, PartialEq, Eq, Structural)]
pub struct TimeOfDay {
    pub hour: u8,
    pub minute: u8,
    pub second: u8,
}

impl TimeOfDay {
    /// Whether the three numbers are a time of day.
    pub open spec fn wf(self) -> bool {
        self.hour < 24 && self.minute < 60 && self.second < 60
    }
}

/// How far a hand is turned clockwise from twelve o'clock: `n` parts of a
/// full turn that has `total` of them.
#[derive(Debug, Clone, Copy, PartialEq, Eq, Structural)]
pub struct Rotation {
    pub n: u8,
    pub total: u8,
}

impl Rotation {
    /// The rotation in full turns: `n` divided by `total`, where `total` is
    /// not zero. In radians the rotation is this many times two pi.
    pub open spec fn turns(self) -> real {
        self.n as real / self.total as real
    }
}

/// Where the three hands point.
#[derive(Debug, Clone, Copy, PartialEq, Eq, Structural)]
pub struct Face {
    pub hour: Rotation,
    pub minute: Rotation,
    pub second: Rotation,
}

/// The face that shows `now`. The hour hand stands on whole hours: it does
/// not creep towards the next hour as the minutes pass.
pub open spec fn face_of(now: TimeOfDay) -> Face {
    Face {
        hour: Rotation { n: now.hour, total: HOUR_MARKS },
        minute: Rotation { n: now.minute, total: MINUTE_MARKS },
        second: Rotation { n: now.second, total: MINUTE_MARKS },
    }
}

/// The rotation of a hand that stands on mark `n` of `total`.
pub fn hand_rotation(n: u8, total: u8) -> (rotation: Rotation)
    ensures
        rotation == (Rotation { n, total }),
{
    Rotation { n, total }
}

/// A hand on mark `n` of `total` is turned by `n / total` of a full turn: by
/// nothing on mark zero, and by less than a full turn on every mark below
/// `total`.
pub proof fn lemma_hand_rotation_turns(n: u8, total: u8)
    requires
        total > 0,
    ensures
        (Rotation { n, total }).turns() * (total as real) == n as real,
        n == 0 ==> (Rotation { n, total }).turns() == 0 as real,
        n < total ==> (0 as real) <= (Rotation { n, total }).turns() < 1 as real,
{
    let parts = n as real;
    let whole = total as real;
    assert(parts / whole * whole == parts) by (nonlinear_arith)
        requires
            whole > 0 as real,
    ;
    assert(parts == 0 as real ==> parts / whole == 0 as real) by (nonlinear_arith)
        requires
            whole > 0 as real,
    ;
    assert(parts < whole ==> (0 as real) <= parts / whole < 1 as real) by (nonlinear_arith)
        requires
            whole > 0 as real,
            parts >= 0 as real,
    ;
}

/// The face that shows `now`.
pub fn face(now: TimeOfDay) -> (face: Face)
    ensures
        face == face_of(now),
{
    Face {
        hour: hand_rotation(now.hour, HOUR_MARKS),
        minute: hand_rotation(now.minute, MINUTE_MARKS),
        second: hand_rotation(now.second, MINUTE_MARKS),
    }
}

/// The time of day that `t` shows in its own offset.
fn time_of_day(t: time::OffsetDateTime) -> (now: TimeOfDay)
    ensures
        now.wf(),
{
    TimeOfDay { hour: t.hour(), minute: t.minute(), second: t.second() }
}

/// `local` where the local time was found, else the time in UTC, read now.
fn local_or_utc(local: Result<time::OffsetDateTime, time::error::IndeterminateOffset>) -> (t:
    time::OffsetDateTime)
    ensures
        local matches Ok(found) ==> t == found,
{
    match local {
        Ok(found) => found,
        Err(_) => time::OffsetDateTime::now_utc(),
    }
}

/// The time of day right now: the machine's local time, or UTC where the
/// local offset cannot be found.
pub fn now() -> (now: TimeOfDay)
    ensures
        now.wf(),
{
    time_of_day(local_or_utc(time::OffsetDateTime::now_local()))
}

/// What can reach the clock.
#[derive(Debug, Clone, Copy)]
pub enum Message {
    /// A new sample of the time.
    Tick(TimeOfDay),
}

/// The clock's state as a mathematical value.
pub struct ClockView {
    /// The sample that the clock shows.
    pub now: TimeOfDay,
    /// Whether the clock holds a drawn face. If it does, that face is
    /// `face_of(now)`.
    pub cached: bool,
}

/// The state that follows `state` when `message` arrives: a sample that
/// differs from the one held replaces it and discards the drawn face; a
/// sample that agrees changes nothing.
pub open spec fn step(state: ClockView, message: Message) -> ClockView {
    match message {
        Message::Tick(sample) => if sample != state.now {
            ClockView { now: sample, cached: false }
        } else {
            state
        },
    }
}

/// The state that follows `state` when the face is drawn.
pub open spec fn drawn(state: ClockView) -> ClockView {
    ClockView { cached: true, ..state }
}

/// The sample on show and, once drawn, its face.
pub struct Clock {
    now: TimeOfDay,
    face: Option<Face>,
}

impl View for Clock {
    type V = ClockView;

    closed spec fn view(&self) -> ClockView {
        ClockView { now: self.now, cached: self.face is Some }
    }
}

impl Clock {
    #[verifier::type_invariant]
    spec fn cache_shows_now(self) -> bool {
        self.face matches Some(held) ==> held == face_of(self.now)
    }

    /// A clock that shows the time of day right now, with no face drawn yet.
    pub fn new() -> (clock: Clock)
        ensures
            clock@.now.wf(),
            !clock@.cached,
    {
        Clock::starting_at(now())
    }

    /// A clock that shows `now`, with no face drawn yet.
    pub fn starting_at(now: TimeOfDay) -> (clock: Clock)
        ensures
            clock@ == (ClockView { now, cached: false }),
    {
        Clock { now, face: None }
    }

    /// The window title.
    pub fn title(&self) -> (title: String)
        ensures
            title@ == "Michael - Clock"@,
    {
        "Michael - Clock".to_owned()
    }

    /// The sample on show.
    pub fn now(&self) -> (now: TimeOfDay)
        ensures
            now == self@.now,
    {
        self.now
    }

    /// Whether a drawn face is held, so that drawing has nothing to compute.
    pub fn is_cached(&self) -> (cached: bool)
        ensures
            cached == self@.cached,
    {
        self.face.is_some()
    }

    /// Takes one message in. A sample that differs from the one on show
    /// replaces it, and the drawn face is discarded; a sample that agrees
    /// leaves the clock as it is, drawn face and all.
    pub fn update(&mut self, message: Message)
        ensures
            final(self)@ == step(old(self)@, message),
    {
        match message {
            Message::Tick(sample) => {
                if sample != self.now {
                    self.face = None;
                    self.now = sample;
                }
            },
        }
    }

    /// The face to paint. A drawn face that is held is handed out again;
    /// else the face is worked out from the sample on show and held from
    /// then on.
    pub fn draw(&mut self) -> (face: Face)
        ensures
            face == face_of(old(self)@.now),
            final(self)@ == drawn(old(self)@),
    {
        proof {
            use_type_invariant(&*self);
        }
        match self.face {
            Some(held) => held,
            None => {
                let fresh = face(self.now);
                self.face = Some(fresh);
                fresh
            },
        }
    }
}

/// A sample that agrees with the one on show leaves the clock as it is: a
/// drawn face stays.
pub proof fn lemma_same_sample_keeps_face(state: ClockView, sample: TimeOfDay)
    requires
        sample == state.now,
    ensures
        step(state, Message::Tick(sample)) == state,
{
}

/// A sample that differs from the one on show discards the drawn face, and
/// does so once: after the next drawing, the same sample again leaves the
/// new face in place.
pub proof fn lemma_new_sample_discards_face_once(state: ClockView, sample: TimeOfDay)
    requires
        sample != state.now,
    ensures
        step(state, Message::Tick(sample)) == (ClockView { now: sample, cached: false }),
        step(drawn(step(state, Message::Tick(sample))), Message::Tick(sample)) == (ClockView {
            now: sample,
            cached: true,
        }),
{
}

} // verus!
