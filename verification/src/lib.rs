//! Tick-driven sprite animation and movement.
//!
//! An actor carries a cyclic animation cursor that advances on the
//! completions of a frame timer, and a position that is integrated on every
//! moving tick. A camera carries the position only. Both are steered by
//! keyboard edge events.
//!
//! Time is counted in whole nanoseconds and positions in billionths of a world
//! unit, so that a speed of one world unit per second moves a position by one
//! for each nanosecond that passes.

pub mod input;
pub mod laws;
pub mod motion;
pub mod scene;
pub mod structs;
pub mod timer;
