//! The demos, one module each.

pub mod clock;
pub mod clock_v2;
pub mod counter;
pub mod events;
