//! Heading and position, shared by actors and cameras.

use vstd::prelude::*;
use crate::input::{binding, direction_for, Edge, KeyEvent};
use crate::structs::base::BaseDirection;

verus! {

/// The speed of everything that moves, in world units per second.
pub const SPEED: u64 = 150;

/// The nanoseconds in one second.
pub const NANOS_PER_SECOND: u64 = 1_000_000_000;

/// What a [`MotionState`] stands for, with positions as unbounded integers.
pub struct Motion {
    pub moving: bool,
    pub direction: BaseDirection,
    pub x: int,
    pub y: int,
}

impl Motion {
    /// At rest at the given place, facing right.
    pub open spec fn at_rest(x: int, y: int) -> Motion {
        Motion { moving: false, direction: BaseDirection::Right, x, y }
    }

    /// The distance covered in `delta` nanoseconds.
    pub open spec fn step(delta: nat) -> int {
        SPEED * delta
    }

    /// Position after `delta` nanoseconds: at rest nothing changes; on the
    /// move one coordinate changes, the one that the direction names, by the
    /// distance covered.
    pub open spec fn advance(self, delta: nat) -> Motion {
        if !self.moving {
            self
        } else {
            match self.direction {
                BaseDirection::Up => Motion { y: self.y + Self::step(delta), ..self },
                BaseDirection::Down => Motion { y: self.y - Self::step(delta), ..self },
                BaseDirection::Left => Motion { x: self.x - Self::step(delta), ..self },
                BaseDirection::Right => Motion { x: self.x + Self::step(delta), ..self },
            }
        }
    }

    /// Both coordinates can be stored.
    pub open spec fn fits(self) -> bool {
        &&& i128::MIN <= self.x <= i128::MAX
        &&& i128::MIN <= self.y <= i128::MAX
    }

    /// Heading after one key edge. A bound key that goes down starts the
    /// movement in its direction. Any other key that goes down, and any key
    /// that goes up, stops the movement and leaves the direction as it was.
    pub open spec fn apply(self, event: KeyEvent) -> Motion {
        match event.edge {
            Edge::Pressed => match binding(event.key) {
                Some(direction) => Motion { moving: true, direction, ..self },
                None => Motion { moving: false, ..self },
            },
            Edge::Released => Motion { moving: false, ..self },
        }
    }

    /// Heading after a run of key edges, oldest first.
    pub open spec fn apply_all(self, events: Seq<KeyEvent>) -> Motion
        decreases events.len(),
    {
        if events.len() == 0 {
            self
        } else {
            self.apply_all(events.drop_last()).apply(events.last())
        }
    }
}

/// Whether something moves, where it last headed, and where it is.
#[derive(Clone, Copy, Debug, PartialEq, Eq, Structural)]
pub struct MotionState {
    pub moving: bool,
    pub direction: BaseDirection,
    pub x: i128,
    pub y: i128,
}

impl View for MotionState {
    type V = Motion;

    open spec fn view(&self) -> Motion {
        Motion { moving: self.moving, direction: self.direction, x: self.x as int, y: self.y as int }
    }
}

/// The distance covered in `delta` nanoseconds.
pub fn step_for(delta: u64) -> (step: i128)
    ensures
        step == Motion::step(delta as nat),
{
    let speed: i128 = SPEED as i128;
    assert(speed == 150);
    speed * (delta as i128)
}

impl MotionState {
    /// At rest at the given place, facing right.
    pub fn new(x: i128, y: i128) -> (state: MotionState)
        ensures
            state@ == Motion::at_rest(x as int, y as int),
    {
        MotionState { moving: false, direction: BaseDirection::Right, x, y }
    }

    /// Whether the position after `delta` nanoseconds can be stored.
    pub fn can_advance(&self, delta: u64) -> (fits: bool)
        ensures
            fits == self@.advance(delta as nat).fits(),
    {
        if !self.moving {
            return true;
        }
        let step: i128 = step_for(delta);
        match self.direction {
            BaseDirection::Up => self.y.checked_add(step).is_some(),
            BaseDirection::Down => self.y.checked_sub(step).is_some(),
            BaseDirection::Left => self.x.checked_sub(step).is_some(),
            BaseDirection::Right => self.x.checked_add(step).is_some(),
        }
    }

    /// Moves on for `delta` nanoseconds.
    pub fn advance(&mut self, delta: u64)
        requires
            old(self)@.advance(delta as nat).fits(),
        ensures
            final(self)@ == old(self)@.advance(delta as nat),
    {
        if self.moving {
            let step: i128 = step_for(delta);
            match self.direction {
                BaseDirection::Up => {
                    self.y = self.y + step;
                },
                BaseDirection::Down => {
                    self.y = self.y - step;
                },
                BaseDirection::Left => {
                    self.x = self.x - step;
                },
                BaseDirection::Right => {
                    self.x = self.x + step;
                },
            }
        }
    }

    /// Takes in one key edge.
    pub fn apply(&mut self, event: KeyEvent)
        ensures
            final(self)@ == old(self)@.apply(event),
    {
        match event.edge {
            Edge::Pressed => {
                match direction_for(event.key) {
                    Some(direction) => {
                        self.moving = true;
                        self.direction = direction;
                    },
                    None => {
                        self.moving = false;
                    },
                }
            },
            Edge::Released => {
                self.moving = false;
            },
        }
    }
}

} // verus!
