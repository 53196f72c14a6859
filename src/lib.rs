//! Decision logic for an ultrasonic (HC-SR04 style) rangefinder task and a
//! push-button watcher.
//!
//! The firmware around this library owns the pins, the timer and the
//! executor. It asks the state machines here what to do next, performs it,
//! and hands back what it observed.

pub mod timing;
pub mod distance;
pub mod measurer;
pub mod button;
