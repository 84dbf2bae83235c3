//! Keyboard edge events and the keys that steer.

use vstd::prelude::*;
use crate::structs::base::{BaseAnimation, BaseDirection};
use crate::structs::scene::PanOrbitConfig;

verus! {

/// A key of the keyboard: the ten keys that steer, and `Other` for the rest.
#[derive(Clone, Copy, Debug, PartialEq, Eq, Structural)]
pub enum Key {
    ArrowUp,
    ArrowDown,
    ArrowLeft,
    ArrowRight,
    KeyA,
    KeyD,
    KeyQ,
    KeyS,
    KeyW,
    KeyZ,
    Other,
}

/// The two edges of a key.
#[derive(Clone, Copy, Debug, PartialEq, Eq, Structural)]
pub enum Edge {
    Pressed,
    Released,
}

/// One edge of one key.
#[derive(Clone, Copy, Debug, PartialEq, Eq, Structural)]
pub struct KeyEvent {
    pub key: Key,
    pub edge: Edge,
}

/// The direction that a key is bound to, if any. The arrows and two sets of
/// letters stand for the same four directions.
pub open spec fn binding(key: Key) -> Option<BaseDirection> {
    match key {
        Key::ArrowUp | Key::KeyZ | Key::KeyW => Some(BaseDirection::Up),
        Key::ArrowDown | Key::KeyS => Some(BaseDirection::Down),
        Key::ArrowLeft | Key::KeyQ | Key::KeyA => Some(BaseDirection::Left),
        Key::ArrowRight | Key::KeyD => Some(BaseDirection::Right),
        Key::Other => None,
    }
}

/// Looks up the direction that a key is bound to.
pub fn direction_for(key: Key) -> (direction: Option<BaseDirection>)
    ensures
        direction == binding(key),
{
    match key {
        Key::ArrowUp | Key::KeyZ | Key::KeyW => Some(BaseDirection::Up),
        Key::ArrowDown | Key::KeyS => Some(BaseDirection::Down),
        Key::ArrowLeft | Key::KeyQ | Key::KeyA => Some(BaseDirection::Left),
        Key::ArrowRight | Key::KeyD => Some(BaseDirection::Right),
        Key::Other => None,
    }
}

/// Feeds the queued events, oldest first, to the actor. Only its heading
/// changes: whether it moves, and where to.
pub fn handle_character_move(events: &[KeyEvent], sprite: &mut BaseAnimation)
    ensures
        final(sprite)@ == old(sprite)@.steer(events@),
        old(sprite).wf() ==> final(sprite).wf(),
{
    let mut i: usize = 0;
    while i < events.len()
        invariant
            i <= events.len(),
            sprite@ == old(sprite)@.steer(events@.take(i as int)),
            old(sprite).wf() ==> sprite.wf(),
        decreases events.len() - i,
    {
        proof {
            assert(events@.take(i + 1).drop_last() =~= events@.take(i as int));
        }
        sprite.apply(events[i]);
        i = i + 1;
    }
    proof {
        assert(events@.take(i as int) =~= events@);
    }
}

/// Feeds the queued events, oldest first, to the camera.
pub fn perform_camera_tracking(events: &[KeyEvent], camera: &mut PanOrbitConfig)
    ensures
        final(camera)@ == old(camera)@.apply_all(events@),
{
    let mut i: usize = 0;
    while i < events.len()
        invariant
            i <= events.len(),
            camera@ == old(camera)@.apply_all(events@.take(i as int)),
        decreases events.len() - i,
    {
        proof {
            assert(events@.take(i + 1).drop_last() =~= events@.take(i as int));
        }
        camera.apply(events[i]);
        i = i + 1;
    }
    proof {
        assert(events@.take(i as int) =~= events@);
    }
}

} // verus!
