//! A viewer of the runtime's events: the last few that arrived, a switch for
//! listening, and a way out.

use vstd::prelude::*;

verus! {

/// How many events the log keeps.
pub const CAPACITY: usize = 5;

/// What the demo reads of one runtime event.
#[derive(Debug, Clone)]
pub struct Event {
    /// Whether the event asks for the window to be closed.
    pub close_requested: bool,
    /// The event, written out for display.
    pub description: String,
}

/// What can reach the demo.
#[derive(Debug, Clone)]
pub enum Message {
    /// The runtime saw an event.
    EventOccurred(Event),
    /// The switch for listening was set.
    Toggled(bool),
    /// The exit button was pressed.
    Exit,
}

/// What the runtime is asked to do after an update.
#[derive(Debug, Clone, Copy, PartialEq, Eq, Structural)]
pub enum Command {
    /// Nothing.
    Nothing,
    /// Close the window, which ends the program.
    Close,
}

/// The demo's state as a mathematical value.
pub struct EventsView {
    /// The stored events, oldest first.
    pub last: Seq<Event>,
    /// Whether arriving events are stored.
    pub enabled: bool,
}

/// The last `limit` items of `items`, or all of them if there are fewer.
pub open spec fn newest(items: Seq<Event>, limit: nat) -> Seq<Event> {
    if items.len() <= limit {
        items
    } else {
        items.subrange(items.len() - limit, items.len() as int)
    }
}

/// The state that follows `state` when `message` arrives.
pub open spec fn step(state: EventsView, message: Message) -> EventsView {
    match message {
        Message::EventOccurred(event) => if state.enabled {
            EventsView { last: newest(state.last.push(event), CAPACITY as nat), ..state }
        } else {
            state
        },
        Message::Toggled(enable) => EventsView { enabled: enable, ..state },
        Message::Exit => state,
    }
}

/// What the runtime is asked to do when `message` arrives in `state`.
pub open spec fn command(state: EventsView, message: Message) -> Command {
    match message {
        Message::EventOccurred(event) => if !state.enabled && event.close_requested {
            Command::Close
        } else {
            Command::Nothing
        },
        Message::Toggled(_) => Command::Nothing,
        Message::Exit => Command::Close,
    }
}

/// The log of events and the switch. The log never holds more than
/// [`CAPACITY`] events.
pub struct Events {
    last: Vec<Event>,
    enabled: bool,
}

impl View for Events {
    type V = EventsView;

    closed spec fn view(&self) -> EventsView {
        EventsView { last: self.last@, enabled: self.enabled }
    }
}

impl Default for Events {
    /// An empty log that does not listen.
    fn default() -> (events: Events)
        ensures
            events@ == (EventsView { last: Seq::empty(), enabled: false }),
    {
        Events { last: Vec::new(), enabled: false }
    }
}

impl Events {
    #[verifier::type_invariant]
    spec fn within_capacity(self) -> bool {
        self.last@.len() <= CAPACITY
    }

    /// An empty log that does not listen.
    pub fn new() -> (events: Events)
        ensures
            events@ == (EventsView { last: Seq::empty(), enabled: false }),
    {
        Events::default()
    }

    /// The window title.
    pub fn title(&self) -> (title: String)
        ensures
            title@ == "Events - Iced"@,
    {
        "Events - Iced".to_owned()
    }

    /// The stored events, oldest first.
    pub fn last(&self) -> (last: &Vec<Event>)
        ensures
            last@ == self@.last,
            last@.len() <= CAPACITY,
    {
        proof {
            use_type_invariant(self);
        }
        &self.last
    }

    /// Whether arriving events are stored.
    pub fn is_enabled(&self) -> (enabled: bool)
        ensures
            enabled == self@.enabled,
    {
        self.enabled
    }

    /// Takes one message in.
    ///
    /// While listening, an event goes to the end of the log, and the oldest
    /// leaves once there are more than [`CAPACITY`]. While not listening, an
    /// event is dropped, unless it asks to close the window: then the runtime
    /// is told to close it. The switch changes nothing but itself, and the
    /// exit button closes the window.
    pub fn update(&mut self, message: Message) -> (command: Command)
        ensures
            final(self)@ == step(old(self)@, message),
            command == self::command(old(self)@, message),
            final(self)@.last.len() <= CAPACITY,
    {
        proof {
            use_type_invariant(&*self);
        }
        match message {
            Message::EventOccurred(event) => {
                if self.enabled {
                    // The log is taken out while it is one over its
                    // capacity, so that the state itself never is.
                    let mut last: Vec<Event> = Vec::new();
                    core::mem::swap(&mut self.last, &mut last);
                    last.push(event);
                    if last.len() > CAPACITY {
                        let _ = last.remove(0);
                    }
                    self.last = last;
                    Command::Nothing
                } else if event.close_requested {
                    Command::Close
                } else {
                    Command::Nothing
                }
            },
            Message::Toggled(enable) => {
                self.enabled = enable;
                Command::Nothing
            },
            Message::Exit => Command::Close,
        }
    }
}

/// The state after all of `messages`, first to last, starting from `state`.
pub open spec fn run(state: EventsView, messages: Seq<Message>) -> EventsView
    decreases messages.len(),
{
    if messages.len() == 0 {
        state
    } else {
        step(run(state, messages.drop_last()), messages.last())
    }
}

/// The messages by which `events` arrive, one after the other.
pub open spec fn occurred(events: Seq<Event>) -> Seq<Message> {
    Seq::new(events.len(), |i: int| Message::EventOccurred(events[i]))
}

/// While listening, the log holds the newest [`CAPACITY`] of all the events
/// that it held before and that arrived since, in the order of arrival.
pub proof fn lemma_log_keeps_newest(state: EventsView, events: Seq<Event>)
    requires
        state.enabled,
        state.last.len() <= CAPACITY,
    ensures
        run(state, occurred(events)).enabled,
        run(state, occurred(events)).last == newest(state.last + events, CAPACITY as nat),
    decreases events.len(),
{
    if events.len() == 0 {
        assert(state.last + events == state.last);
    } else {
        let earlier = events.drop_last();
        lemma_log_keeps_newest(state, earlier);
        assert(occurred(events).drop_last() == occurred(earlier));
        assert((state.last + earlier).push(events.last()) == state.last + events);
    }
}

/// Once five or more events have arrived while listening, the log holds
/// exactly five: the five that arrived last, in the order of arrival,
/// whatever it held before.
pub proof fn lemma_log_is_last_five(state: EventsView, events: Seq<Event>)
    requires
        state.enabled,
        state.last.len() <= CAPACITY,
        events.len() >= CAPACITY,
    ensures
        run(state, occurred(events)).last.len() == CAPACITY,
        run(state, occurred(events)).last == events.subrange(
            events.len() - CAPACITY,
            events.len() as int,
        ),
{
    lemma_log_keeps_newest(state, events);
}

/// Switching listening off and on again leaves the log as it was, and so do
/// the events that arrive in between: none of them is stored.
pub proof fn lemma_toggling_keeps_log(state: EventsView, between: Seq<Event>)
    ensures
        run(
            state,
            seq![Message::Toggled(false)] + occurred(between) + seq![Message::Toggled(true)],
        ) == (EventsView { last: state.last, enabled: true }),
{
    let off = seq![Message::Toggled(false)];
    let messages = off + occurred(between) + seq![Message::Toggled(true)];
    assert(messages.drop_last() == off + occurred(between));
    lemma_dropped_while_off(state, between);
}

/// After listening is switched off, events that arrive change nothing.
proof fn lemma_dropped_while_off(state: EventsView, events: Seq<Event>)
    ensures
        run(state, seq![Message::Toggled(false)] + occurred(events)) == (EventsView {
            last: state.last,
            enabled: false,
        }),
    decreases events.len(),
{
    let off = seq![Message::Toggled(false)];
    if events.len() == 0 {
        assert(off + occurred(events) == off);
        assert(off.drop_last().len() == 0);
        reveal_with_fuel(run, 2);
    } else {
        lemma_dropped_while_off(state, events.drop_last());
        assert((off + occurred(events)).drop_last() == off + occurred(events.drop_last()));
    }
}

} // verus!
