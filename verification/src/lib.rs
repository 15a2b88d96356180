//! State, messages and update rules of four small desktop demos: a counter,
//! a viewer of runtime events, a text clock and an analog clock.
//!
//! Each demo is a state value, a message type and an `update` that turns
//! state and message into the next state. Nothing here draws or opens a
//! window: a front end owns the event loop, feeds messages in and renders
//! what the state holds.

pub mod demo;
