//! Core of an aim-training mini-game: a fixed-timestep scheduler that turns
//! irregular wall-clock frames into a stable sequence of logical ticks, a
//! scene stack that drives a small state machine (start screen, waiting
//! phase, target phase, finish screen) against a shared world record, and
//! the angular-wedge geometry used to judge a click against the target.
//!
//! Rendering, input polling and the wall clock are supplied by a host around
//! this crate: the scene stack consumes plain input snapshots and emits
//! abstract draw commands, and the scheduler is fed elapsed nanoseconds.

mod rng;

pub mod scene;
pub mod timestep;
pub mod wedge;
