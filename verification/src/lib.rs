//! Ultrasonic ranging with an HC-SR04 sensor driven by one hardware timer.
//!
//! The timer emits the periodic trigger pulse on an output-compare channel and
//! timestamps both edges of the echo on an input-capture channel. This crate
//! holds the parts of that design that are pure computation: the derivation of
//! the timer's register values, the order in which the timer is brought up,
//! the state machine that pairs captured edges into distances, and the
//! container that the interrupt handler and the foreground loop share.

pub mod context;
pub mod estimator;
pub mod timer;
