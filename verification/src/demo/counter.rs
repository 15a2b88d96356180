//! A counter with two buttons.

use vstd::prelude::*;

verus! {

/// What the two buttons send.
#[derive(Debug, Clone, Copy, PartialEq, Eq, Structural)]
pub enum Message {
    IncrementPressed,
    DecrementPressed,
}

/// The counter's state: one signed integer.
pub struct Counter {
    value: i32,
}

/// The value that follows `value` when `message` arrives.
pub open spec fn step(value: int, message: Message) -> int {
    match message {
        Message::IncrementPressed => value + 1,
        Message::DecrementPressed => value - 1,
    }
}

/// The value after all of `messages`, first to last, starting from `value`.
pub open spec fn run(value: int, messages: Seq<Message>) -> int
    decreases messages.len(),
{
    if messages.len() == 0 {
        value
    } else {
        step(run(value, messages.drop_last()), messages.last())
    }
}

/// How many of `messages` are equal to `wanted`.
pub open spec fn count(messages: Seq<Message>, wanted: Message) -> nat
    decreases messages.len(),
{
    if messages.len() == 0 {
        0
    } else {
        count(messages.drop_last(), wanted) + if messages.last() == wanted {
            1nat
        } else {
            0nat
        }
    }
}

impl View for Counter {
    type V = int;

    closed spec fn view(&self) -> int {
        self.value as int
    }
}

impl Counter {
    /// A counter at zero.
    pub fn new() -> (counter: Counter)
        ensures
            counter@ == 0,
    {
        Counter { value: 0 }
    }

    /// The window title.
    pub fn title(&self) -> (title: String)
        ensures
            title@ == "Demo-Iced: Counter"@,
    {
        "Demo-Iced: Counter".to_owned()
    }

    /// The current value.
    pub fn value(&self) -> (value: i32)
        ensures
            value == self@,
    {
        self.value
    }

    /// Moves the counter one up or one down, as `message` says.
    ///
    /// The new value has to be an `i32`: the counter cannot leave
    /// `i32::MIN ..= i32::MAX`.
    pub fn update(&mut self, message: Message)
        requires
            i32::MIN <= step(old(self)@, message) <= i32::MAX,
        ensures
            final(self)@ == step(old(self)@, message),
    {
        match message {
            Message::IncrementPressed => {
                self.value += 1;
            },
            Message::DecrementPressed => {
                self.value -= 1;
            },
        }
    }
}

/// After any presses, in whatever order they came, the counter stands above
/// where it started by the number of increments less the number of
/// decrements. From zero that difference is the value itself.
pub proof fn lemma_run_is_increments_less_decrements(value: int, messages: Seq<Message>)
    ensures
        run(value, messages) == value + count(messages, Message::IncrementPressed) - count(
            messages,
            Message::DecrementPressed,
        ),
        run(0, messages) == count(messages, Message::IncrementPressed) - count(
            messages,
            Message::DecrementPressed,
        ),
    decreases messages.len(),
{
    if messages.len() > 0 {
        lemma_run_is_increments_less_decrements(value, messages.drop_last());
        lemma_run_is_increments_less_decrements(0, messages.drop_last());
    }
}

} // verus!
