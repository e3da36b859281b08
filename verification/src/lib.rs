//! Core of an interval ear-training exercise.
//!
//! The library owns the pitch domain model and its MIDI-number arithmetic,
//! the bounded-random note-pair generator, and the message-driven state
//! machine that sequences menu and game transitions.  Terminal rendering,
//! device I/O and the asynchronous plumbing around the state machine live
//! outside the library and talk to it through plain values and the message
//! types declared here.

pub mod audio;
pub mod notes;
pub mod random;
pub mod state;
pub mod ui;
pub mod use_cases;
