//! Interactive terminal picker for sessions of an external multiplexer.
//!
//! The core is a small state machine: a list of session names, a selection
//! cursor, and an optional in-progress "new session name" buffer. Key events
//! drive pure transitions until a single exit action is decided. Rendering is
//! a pure function from the state to a plan of what each screen region shows.

use vstd::prelude::*;

pub mod action;
pub mod chars;
pub mod events;
pub mod listing;
pub mod names;
pub mod render;
pub mod state;

verus! {

/// The direction in which the selection cursor moves through the list.
#[derive(Clone, Copy, Debug)]
pub enum MoveDir {
    Up,
    Down,
}

} // verus!
