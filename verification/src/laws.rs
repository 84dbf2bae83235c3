//! What holds of every run of ticks and key edges.

use vstd::prelude::*;
use crate::input::{binding, Edge, Key, KeyEvent};
use crate::motion::{Motion, SPEED};
use crate::structs::base::{AnimationView, BaseDirection};

verus! {

/// A tick at rest shows the first frame and moves nothing, whatever the
/// timer does.
pub proof fn rest_pins_first_frame(actor: AnimationView, delta: nat)
    requires
        !actor.motion.moving,
    ensures
        actor.tick(delta).frame == actor.first,
        actor.tick(delta).motion == actor.motion,
        actor.tick(delta).mirrored == actor.mirrored,
{
}

/// A camera at rest stays where it is.
pub proof fn rest_keeps_position(motion: Motion, delta: nat)
    requires
        !motion.moving,
    ensures
        motion.advance(delta) == motion,
{
}

/// On the move, the coordinate that the direction names changes by the speed
/// times the time, and the other coordinate and the heading stay.
pub proof fn move_follows_axis(motion: Motion, delta: nat)
    requires
        motion.moving,
    ensures
        motion.advance(delta).moving,
        motion.advance(delta).direction == motion.direction,
        motion.direction == BaseDirection::Up ==> motion.advance(delta).y == motion.y + SPEED * delta
            && motion.advance(delta).x == motion.x,
        motion.direction == BaseDirection::Down ==> motion.advance(delta).y == motion.y - SPEED
            * delta && motion.advance(delta).x == motion.x,
        motion.direction == BaseDirection::Left ==> motion.advance(delta).x == motion.x - SPEED
            * delta && motion.advance(delta).y == motion.y,
        motion.direction == BaseDirection::Right ==> motion.advance(delta).x == motion.x + SPEED
            * delta && motion.advance(delta).y == motion.y,
{
}

/// An actor on the move is moved on by every tick, whether or not its timer
/// completes, and faces the way it goes.
pub proof fn move_ignores_timer(actor: AnimationView, delta: nat)
    requires
        actor.motion.moving,
    ensures
        actor.tick(delta).motion == actor.motion.advance(delta),
        actor.motion.direction == BaseDirection::Left ==> actor.tick(delta).mirrored,
        actor.motion.direction == BaseDirection::Right ==> !actor.tick(delta).mirrored,
        actor.motion.direction == BaseDirection::Up || actor.motion.direction == BaseDirection::Down
            ==> actor.tick(delta).mirrored == actor.mirrored,
{
}

/// A tick keeps an actor well formed, and changes neither its range of
/// frames, nor its frame rate, nor its heading. After it the actor shows its
/// first frame if it is at rest, and faces its direction if it is on the move.
pub proof fn tick_keeps_shape(actor: AnimationView, delta: nat)
    requires
        actor.wf(),
    ensures
        actor.tick(delta).wf(),
        actor.tick(delta).settled(),
        actor.tick(delta).first == actor.first,
        actor.tick(delta).last == actor.last,
        actor.tick(delta).fps == actor.fps,
        actor.tick(delta).motion.moving == actor.motion.moving,
        actor.tick(delta).motion.direction == actor.motion.direction,
{
}

/// The frame changes only where the actor moves and the timer completes; it
/// then goes up by one, or from the last frame to the second.
pub proof fn frame_steps_on_completion(actor: AnimationView, delta: nat)
    requires
        actor.wf(),
        actor.motion.moving,
    ensures
        !actor.timer.tick(delta).completed ==> actor.tick(delta).frame == actor.frame,
        actor.timer.tick(delta).completed && actor.frame < actor.last ==> actor.tick(delta).frame
            == actor.frame + 1,
        actor.timer.tick(delta).completed && actor.frame == actor.last ==> actor.tick(delta).frame
            == actor.first + 1,
{
}

/// A run of ticks keeps an actor well formed and keeps its range of frames
/// and its heading.
pub proof fn run_keeps_shape(actor: AnimationView, deltas: Seq<nat>)
    requires
        actor.wf(),
    ensures
        actor.run(deltas).wf(),
        actor.run(deltas).first == actor.first,
        actor.run(deltas).last == actor.last,
        actor.run(deltas).motion.moving == actor.motion.moving,
        actor.run(deltas).motion.direction == actor.motion.direction,
    decreases deltas.len(),
{
    if deltas.len() > 0 {
        run_keeps_shape(actor, deltas.drop_last());
        tick_keeps_shape(actor.run(deltas.drop_last()), deltas.last());
    }
}

/// The time that a run of ticks takes.
pub open spec fn total(deltas: Seq<nat>) -> nat
    decreases deltas.len(),
{
    if deltas.len() == 0 {
        0
    } else {
        total(deltas.drop_last()) + deltas.last()
    }
}

/// A run of ticks moves an actor as far as one tick of all their time, in
/// however many pieces the time comes.
pub proof fn run_moves_as_one_tick(actor: AnimationView, deltas: Seq<nat>)
    requires
        actor.wf(),
    ensures
        actor.run(deltas).motion == actor.motion.advance(total(deltas)),
    decreases deltas.len(),
{
    if deltas.len() > 0 {
        let front = deltas.drop_last();
        run_moves_as_one_tick(actor, front);
        run_keeps_shape(actor, front);
        assert(SPEED * (total(front) + deltas.last()) == SPEED * total(front) + SPEED * deltas.last())
            by (nonlinear_arith);
    }
}

/// An actor on the move that has left its first frame does not come back to
/// it, however many ticks follow.
pub proof fn stride_stays_off_first_frame(actor: AnimationView, deltas: Seq<nat>)
    requires
        actor.wf(),
        actor.motion.moving,
        actor.first < actor.frame,
    ensures
        actor.first < actor.run(deltas).frame <= actor.last,
    decreases deltas.len(),
{
    if deltas.len() > 0 {
        stride_stays_off_first_frame(actor, deltas.drop_last());
        run_keeps_shape(actor, deltas.drop_last());
    }
}

/// Once the timer of an actor on the move has completed, at tick `k` of a
/// run, the frame shown after the run lies above the first frame.
pub proof fn completion_starts_stride(actor: AnimationView, deltas: Seq<nat>, k: int)
    requires
        actor.wf(),
        actor.motion.moving,
        0 <= k < deltas.len(),
        actor.run(deltas.take(k)).timer.tick(deltas[k]).completed,
    ensures
        actor.first < actor.run(deltas).frame <= actor.last,
    decreases deltas.len(),
{
    let front = deltas.drop_last();
    run_keeps_shape(actor, front);
    if k == deltas.len() - 1 {
        assert(deltas.take(k) =~= front);
    } else {
        assert(front.take(k) =~= deltas.take(k));
        completion_starts_stride(actor, front, k);
    }
}

/// A tick of no time, after a tick of no time, changes nothing at all.
pub proof fn zero_tick_idempotent(actor: AnimationView)
    requires
        actor.wf(),
    ensures
        actor.tick(0).tick(0) == actor.tick(0),
{
}

/// Any number of ticks of no time, one at least, leave what one of them
/// leaves.
pub proof fn zero_ticks_collapse(actor: AnimationView, deltas: Seq<nat>)
    requires
        actor.wf(),
        deltas.len() >= 1,
        forall|i: int| 0 <= i < deltas.len() ==> deltas[i] == 0,
    ensures
        actor.run(deltas) == actor.tick(0),
    decreases deltas.len(),
{
    let front = deltas.drop_last();
    if front.len() == 0 {
        assert(actor.run(front) == actor);
    } else {
        zero_ticks_collapse(actor, front);
        zero_tick_idempotent(actor);
    }
}

/// Ticks of no time change nothing that the outside sees of an actor that
/// shows its first frame at rest, or faces its direction on the move.
pub proof fn zero_ticks_unseen(actor: AnimationView, deltas: Seq<nat>)
    requires
        actor.wf(),
        actor.settled(),
        forall|i: int| 0 <= i < deltas.len() ==> deltas[i] == 0,
    ensures
        actor.run(deltas).output() == actor.output(),
        actor.run(deltas).motion == actor.motion,
{
    if deltas.len() >= 1 {
        zero_ticks_collapse(actor, deltas);
    }
}

/// A camera does not move in no time.
pub proof fn zero_advance_is_idle(motion: Motion)
    ensures
        motion.advance(0) == motion,
{
}

/// The same key edge twice in a row does what it does once.
pub proof fn repeated_edge_is_idle(motion: Motion, event: KeyEvent)
    ensures
        motion.apply(event).apply(event) == motion.apply(event),
{
}

/// The key that went down last decides: a bound one starts the movement in
/// its direction, whatever came before.
pub proof fn last_press_wins(motion: Motion, events: Seq<KeyEvent>, direction: BaseDirection)
    requires
        events.len() >= 1,
        events.last().edge == Edge::Pressed,
        binding(events.last().key) == Some(direction),
    ensures
        motion.apply_all(events).moving,
        motion.apply_all(events).direction == direction,
{
}

/// A key that goes up stops the movement, whichever key it is and whatever
/// came before, and so does an unbound key that goes down.
pub proof fn other_edges_stop(motion: Motion, events: Seq<KeyEvent>)
    requires
        events.len() >= 1,
        events.last().edge == Edge::Released || binding(events.last().key).is_none(),
    ensures
        !motion.apply_all(events).moving,
        motion.apply_all(events).direction == motion.apply_all(events.drop_last()).direction,
{
}

/// Key edges move nothing.
pub proof fn edges_keep_position(motion: Motion, events: Seq<KeyEvent>)
    ensures
        motion.apply_all(events).x == motion.x,
        motion.apply_all(events).y == motion.y,
    decreases events.len(),
{
    if events.len() > 0 {
        edges_keep_position(motion, events.drop_last());
    }
}

/// A bound key goes down, and then keys only go up, once at least: the
/// movement has stopped, and the direction is still that of the key that went
/// down.
pub proof fn release_keeps_direction(motion: Motion, key: Key, direction: BaseDirection, events: Seq<KeyEvent>)
    requires
        binding(key) == Some(direction),
        events.len() >= 2,
        events[0] == (KeyEvent { key, edge: Edge::Pressed }),
        forall|i: int| 1 <= i < events.len() ==> (#[trigger] events[i]).edge == Edge::Released,
    ensures
        motion.apply_all(events) == (Motion { moving: false, direction, ..motion }),
    decreases events.len(),
{
    let front = events.drop_last();
    if front.len() == 1 {
        assert(front.drop_last().len() == 0);
        assert(motion.apply_all(front.drop_last()) == motion);
        assert(motion.apply_all(front) == motion.apply(events[0]));
    } else {
        release_keeps_direction(motion, key, direction, front);
    }
}

} // verus!
