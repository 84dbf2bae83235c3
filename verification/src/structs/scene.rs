//! The camera that follows the keys.

use vstd::prelude::*;
use crate::input::KeyEvent;
use crate::motion::{Motion, MotionState};

verus! {

/// A camera: a heading and a position, and nothing to animate.
#[derive(Clone, Copy, Debug)]
pub struct PanOrbitConfig {
    pub motion: MotionState,
}

impl View for PanOrbitConfig {
    type V = Motion;

    open spec fn view(&self) -> Motion {
        self.motion@
    }
}

impl Default for PanOrbitConfig {
    /// A camera at rest in the origin, facing right.
    fn default() -> (camera: PanOrbitConfig)
        ensures
            camera@ == Motion::at_rest(0, 0),
    {
        PanOrbitConfig { motion: MotionState::new(0, 0) }
    }
}

impl PanOrbitConfig {
    /// The same camera, put at another place.
    pub fn with_origin(self, x: i128, y: i128) -> (camera: PanOrbitConfig)
        ensures
            camera@ == (Motion { x: x as int, y: y as int, ..self@ }),
    {
        PanOrbitConfig {
            motion: MotionState { moving: self.motion.moving, direction: self.motion.direction, x, y },
        }
    }

    /// Whether the position after `delta` nanoseconds can be stored.
    pub fn can_tick(&self, delta: u64) -> (fits: bool)
        ensures
            fits == self@.advance(delta as nat).fits(),
    {
        self.motion.can_advance(delta)
    }

    /// One tick of `delta` nanoseconds: the camera moves on.
    pub fn tick(&mut self, delta: u64)
        requires
            old(self)@.advance(delta as nat).fits(),
        ensures
            final(self)@ == old(self)@.advance(delta as nat),
    {
        self.motion.advance(delta);
    }

    /// Takes in one key edge.
    pub fn apply(&mut self, event: KeyEvent)
        ensures
            final(self)@ == old(self)@.apply(event),
    {
        self.motion.apply(event);
    }
}

} // verus!
