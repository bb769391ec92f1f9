//! Core logic of a ROM-selection front-end: an ordered catalog of ROM file
//! names, device-independent input actions, a fixed 3-column hit-test layout,
//! a per-entry focus-blend animation, and the frame state machine that decides
//! when a launch happens and when the loop ends.
use vstd::prelude::*;

pub mod catalog;
pub mod geometry;
pub mod input;
pub mod machine;
pub mod options;
pub mod selection;
pub mod ui;

verus! {

/// Number of entries the selection screen can display at once.
pub const VISIBLE_SLOTS: usize = 3;

} // verus!
