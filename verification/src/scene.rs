//! The per-tick passes over all actors and all cameras.

use vstd::prelude::*;
use crate::input::{handle_character_move, perform_camera_tracking, KeyEvent};
use crate::structs::base::BaseAnimation;
use crate::structs::scene::PanOrbitConfig;

verus! {

/// One frame of the player and the camera that follows it: first the queued
/// key edges steer both, then both get their tick of `delta` nanoseconds. The
/// tick is held back, for both, where the position of either could not be
/// stored after it; the result tells whether it was made.
pub fn run_frame(
    events: &[KeyEvent],
    delta: u64,
    player: &mut BaseAnimation,
    camera: &mut PanOrbitConfig,
) -> (ticked: bool)
    requires
        old(player).wf(),
    ensures
        ticked == (old(player)@.steer(events@).motion.advance(delta as nat).fits()
            && old(camera)@.apply_all(events@).advance(delta as nat).fits()),
        ticked ==> final(player)@ == old(player)@.steer(events@).tick(delta as nat),
        ticked ==> final(camera)@ == old(camera)@.apply_all(events@).advance(delta as nat),
        !ticked ==> final(player)@ == old(player)@.steer(events@),
        !ticked ==> final(camera)@ == old(camera)@.apply_all(events@),
        final(player).wf(),
{
    handle_character_move(events, player);
    perform_camera_tracking(events, camera);
    if player.can_tick(delta) && camera.can_tick(delta) {
        player.tick(delta);
        camera.tick(delta);
        true
    } else {
        false
    }
}

/// Gives every actor one tick of `delta` nanoseconds.
pub fn run_animations(delta: u64, actors: &mut Vec<BaseAnimation>)
    requires
        forall|i: int|
            0 <= i < old(actors)@.len() ==> (#[trigger] old(actors)@[i]).wf()
                && old(actors)@[i]@.motion.advance(delta as nat).fits(),
    ensures
        final(actors)@.len() == old(actors)@.len(),
        forall|i: int|
            0 <= i < old(actors)@.len() ==> (#[trigger] final(actors)@[i])@ == old(actors)@[i]@.tick(
                delta as nat,
            ) && final(actors)@[i].wf(),
{
    let mut i: usize = 0;
    while i < actors.len()
        invariant
            i <= actors@.len(),
            actors@.len() == old(actors)@.len(),
            forall|j: int|
                0 <= j < i ==> (#[trigger] actors@[j])@ == old(actors)@[j]@.tick(delta as nat)
                    && actors@[j].wf(),
            forall|j: int| i <= j < actors@.len() ==> #[trigger] actors@[j] == old(actors)@[j],
            forall|j: int|
                0 <= j < old(actors)@.len() ==> (#[trigger] old(actors)@[j]).wf()
                    && old(actors)@[j]@.motion.advance(delta as nat).fits(),
        decreases actors@.len() - i,
    {
        let mut actor = actors[i];
        actor.tick(delta);
        actors.set(i, actor);
        i = i + 1;
    }
}

/// Gives every camera one tick of `delta` nanoseconds.
pub fn track_camera(delta: u64, cameras: &mut Vec<PanOrbitConfig>)
    requires
        forall|i: int|
            0 <= i < old(cameras)@.len() ==> (#[trigger] old(cameras)@[i])@.advance(delta as nat).fits(),
    ensures
        final(cameras)@.len() == old(cameras)@.len(),
        forall|i: int|
            0 <= i < old(cameras)@.len() ==> (#[trigger] final(cameras)@[i])@
                == old(cameras)@[i]@.advance(delta as nat),
{
    let mut i: usize = 0;
    while i < cameras.len()
        invariant
            i <= cameras@.len(),
            cameras@.len() == old(cameras)@.len(),
            forall|j: int|
                0 <= j < i ==> (#[trigger] cameras@[j])@ == old(cameras)@[j]@.advance(delta as nat),
            forall|j: int| i <= j < cameras@.len() ==> #[trigger] cameras@[j] == old(cameras)@[j],
            forall|j: int|
                0 <= j < old(cameras)@.len() ==> (#[trigger] old(cameras)@[j])@.advance(
                    delta as nat,
                ).fits(),
        decreases cameras@.len() - i,
    {
        let mut camera = cameras[i];
        camera.tick(delta);
        cameras.set(i, camera);
        i = i + 1;
    }
}

} // verus!
