//! The moves of the attempt state machine.

pub mod transitions;
