//! Core of a single-screen quiz on reading code: a fixed pool of problems, the
//! answer rules with their streak counter, and the timed transitions between
//! problems. Rendering is left to a host that reads the `Screen` state.

mod draw;
pub mod game;
pub mod laws;
pub mod problem;
pub mod timer;
