//! The animated actor.

use vstd::prelude::*;
use crate::input::KeyEvent;
use crate::motion::{Motion, MotionState, NANOS_PER_SECOND};
use crate::timer::{Timer, TimerView};

verus! {

/// The four ways to go. There is no way to face nowhere: what stands still
/// keeps the direction it last had.
#[derive(Clone, Copy, Debug, PartialEq, Eq, Structural)]
pub enum BaseDirection {
    Up,
    Down,
    Left,
    Right,
}

/// Why an actor was not made.
#[derive(Clone, Copy, Debug, PartialEq, Eq, Structural)]
pub enum ConfigError {
    /// The first frame does not lie below the last.
    EmptyFrameRange,
    /// No frames per second.
    ZeroFps,
}

/// The nanoseconds between two frames at `fps` frames per second.
pub open spec fn frame_period(fps: nat) -> nat
    recommends
        fps > 0,
{
    (NANOS_PER_SECOND as nat / fps) as nat
}

/// What the outside sees of an actor: where it is, which frame it shows, and
/// whether it is drawn mirrored.
pub struct Output {
    pub x: int,
    pub y: int,
    pub frame: nat,
    pub mirrored: bool,
}

/// What a [`BaseAnimation`] stands for.
pub struct AnimationView {
    pub motion: Motion,
    pub first: nat,
    pub last: nat,
    pub fps: nat,
    pub timer: TimerView,
    pub frame: nat,
    pub mirrored: bool,
}

impl AnimationView {
    /// A new actor: at rest in the origin, facing right, unmirrored, on its
    /// first frame, with its timer armed.
    pub open spec fn initial(first: nat, last: nat, fps: nat) -> AnimationView {
        AnimationView {
            motion: Motion::at_rest(0, 0),
            first,
            last,
            fps,
            timer: TimerView::armed(frame_period(fps)),
            frame: first,
            mirrored: false,
        }
    }

    /// The frames form a range of at least two, the shown frame lies in it,
    /// and the timer runs at the period that the frame rate gives.
    pub open spec fn wf(self) -> bool {
        &&& self.first < self.last
        &&& self.fps > 0
        &&& self.timer.wf()
        &&& self.timer.period == frame_period(self.fps)
        &&& self.first <= self.frame <= self.last
    }

    /// The frame after the shown one. After the last comes the second: the
    /// first is the pose at rest and has no place in the stride.
    pub open spec fn next_frame(self) -> nat {
        if self.frame == self.last {
            self.first + 1
        } else {
            self.frame + 1
        }
    }

    /// Whether the actor is drawn mirrored once it has moved in its direction.
    pub open spec fn facing(self) -> bool {
        match self.motion.direction {
            BaseDirection::Left => true,
            BaseDirection::Right => false,
            _ => self.mirrored,
        }
    }

    /// One tick of `delta` nanoseconds. The timer always runs. At rest the
    /// actor shows its first frame and nothing else changes. On the move its
    /// position moves on and it faces its direction; where the timer
    /// completes, the next frame is shown, and unless the frames wrapped
    /// round the timer is armed anew.
    pub open spec fn tick(self, delta: nat) -> AnimationView {
        let timer = self.timer.tick(delta);
        if !self.motion.moving {
            AnimationView { timer, frame: self.first, ..self }
        } else {
            let moved = AnimationView {
                motion: self.motion.advance(delta),
                mirrored: self.facing(),
                timer,
                ..self
            };
            if !timer.completed {
                moved
            } else if self.frame == self.last {
                AnimationView { frame: self.next_frame(), ..moved }
            } else {
                AnimationView {
                    frame: self.next_frame(),
                    timer: TimerView::armed(frame_period(self.fps)),
                    ..moved
                }
            }
        }
    }

    /// The state after a run of key edges, oldest first: they change the
    /// heading and nothing else.
    pub open spec fn steer(self, events: Seq<KeyEvent>) -> AnimationView {
        AnimationView { motion: self.motion.apply_all(events), ..self }
    }

    /// The state after a run of ticks, oldest first, with no key edge between
    /// them.
    pub open spec fn run(self, deltas: Seq<nat>) -> AnimationView
        decreases deltas.len(),
    {
        if deltas.len() == 0 {
            self
        } else {
            self.run(deltas.drop_last()).tick(deltas.last())
        }
    }

    /// Whether a tick of no time would leave what the outside sees: at rest
    /// the first frame is shown already, on the move the actor faces its
    /// direction already.
    pub open spec fn settled(self) -> bool {
        if self.motion.moving {
            self.mirrored == self.facing()
        } else {
            self.frame == self.first
        }
    }

    /// What the outside sees.
    pub open spec fn output(self) -> Output {
        Output { x: self.motion.x, y: self.motion.y, frame: self.frame, mirrored: self.mirrored }
    }
}

/// An actor: a heading and a position, a range of frames, and the timer that
/// paces them.
#[derive(Clone, Copy, Debug)]
pub struct BaseAnimation {
    motion: MotionState,
    first_sprite_index: usize,
    last_sprite_index: usize,
    fps: u8,
    frame_timer: Timer,
    current_frame_index: usize,
    mirrored: bool,
}

impl View for BaseAnimation {
    type V = AnimationView;

    closed spec fn view(&self) -> AnimationView {
        AnimationView {
            motion: self.motion@,
            first: self.first_sprite_index as nat,
            last: self.last_sprite_index as nat,
            fps: self.fps as nat,
            timer: self.frame_timer@,
            frame: self.current_frame_index as nat,
            mirrored: self.mirrored,
        }
    }
}

impl BaseAnimation {
    /// What every actor that this library hands out keeps: it is well formed
    /// and its position can be stored.
    pub open spec fn wf(&self) -> bool {
        self@.wf() && self@.motion.fits()
    }

    /// Makes an actor that cycles through the frames from `first` to `last`
    /// at `fps` frames per second. A range of fewer than two frames is
    /// refused, and so is a frame rate of zero.
    pub fn new(first: usize, last: usize, fps: u8) -> (made: Result<BaseAnimation, ConfigError>)
        ensures
            first >= last ==> made == Err::<BaseAnimation, ConfigError>(ConfigError::EmptyFrameRange),
            first < last && fps == 0 ==> made == Err::<BaseAnimation, ConfigError>(ConfigError::ZeroFps),
            first < last && fps > 0 ==> made.is_ok() && made.unwrap()@ == AnimationView::initial(
                first as nat,
                last as nat,
                fps as nat,
            ) && made.unwrap().wf(),
    {
        if first >= last {
            return Err(ConfigError::EmptyFrameRange);
        }
        if fps == 0 {
            return Err(ConfigError::ZeroFps);
        }
        Ok(
            BaseAnimation {
                motion: MotionState::new(0, 0),
                first_sprite_index: first,
                last_sprite_index: last,
                fps,
                frame_timer: Self::timer_from_fps(fps),
                current_frame_index: first,
                mirrored: false,
            },
        )
    }

    /// A timer that completes `fps` times per second.
    pub fn timer_from_fps(fps: u8) -> (timer: Timer)
        requires
            fps > 0,
        ensures
            timer@ == TimerView::armed(frame_period(fps as nat)),
            timer@.wf(),
    {
        let period: u64 = NANOS_PER_SECOND / (fps as u64);
        assert(period > 0) by {
            vstd::arithmetic::div_mod::lemma_div_non_zero(NANOS_PER_SECOND as int, fps as int);
        }
        Timer::new(period)
    }

    /// The same actor, put at another place.
    pub fn with_origin(self, x: i128, y: i128) -> (actor: BaseAnimation)
        ensures
            actor@ == (AnimationView {
                motion: Motion { x: x as int, y: y as int, ..self@.motion },
                ..self@
            }),
            self.wf() ==> actor.wf(),
    {
        BaseAnimation {
            motion: MotionState { moving: self.motion.moving, direction: self.motion.direction, x, y },
            first_sprite_index: self.first_sprite_index,
            last_sprite_index: self.last_sprite_index,
            fps: self.fps,
            frame_timer: self.frame_timer,
            current_frame_index: self.current_frame_index,
            mirrored: self.mirrored,
        }
    }

    /// Whether the position after `delta` nanoseconds can be stored.
    pub fn can_tick(&self, delta: u64) -> (fits: bool)
        ensures
            fits == self@.motion.advance(delta as nat).fits(),
    {
        self.motion.can_advance(delta)
    }

    /// One tick of `delta` nanoseconds.
    pub fn tick(&mut self, delta: u64)
        requires
            old(self).wf(),
            old(self)@.motion.advance(delta as nat).fits(),
        ensures
            final(self)@ == old(self)@.tick(delta as nat),
            final(self).wf(),
            !old(self)@.motion.moving ==> final(self)@.frame == old(self)@.first && final(self)@.motion
                == old(self)@.motion,
            old(self)@.motion.moving ==> final(self)@.motion == old(self)@.motion.advance(delta as nat),
            old(self)@.motion.moving && old(self)@.timer.tick(delta as nat).completed ==> final(self)@.frame
                == old(self)@.next_frame() && old(self)@.first < final(self)@.frame,
            old(self)@.motion.moving && !old(self)@.timer.tick(delta as nat).completed
                ==> final(self)@.frame == old(self)@.frame,
    {
        self.frame_timer.tick(delta);
        if !self.motion.moving {
            self.current_frame_index = self.first_sprite_index;
        } else {
            match self.motion.direction {
                BaseDirection::Left => {
                    self.mirrored = true;
                },
                BaseDirection::Right => {
                    self.mirrored = false;
                },
                _ => {},
            }
            self.motion.advance(delta);
            if self.frame_timer.just_completed() {
                if self.current_frame_index == self.last_sprite_index {
                    self.current_frame_index = self.first_sprite_index + 1;
                } else {
                    self.current_frame_index = self.current_frame_index + 1;
                    self.frame_timer = Self::timer_from_fps(self.fps);
                }
            }
        }
    }

    /// Takes in one key edge. Only the heading changes.
    pub fn apply(&mut self, event: KeyEvent)
        ensures
            final(self)@ == (AnimationView { motion: old(self)@.motion.apply(event), ..old(self)@ }),
            old(self).wf() ==> final(self).wf(),
    {
        self.motion.apply(event);
    }

    /// Whether the actor is on the move.
    pub fn moving(&self) -> (moving: bool)
        ensures
            moving == self@.motion.moving,
    {
        self.motion.moving
    }

    /// Where the actor last headed.
    pub fn direction(&self) -> (direction: BaseDirection)
        ensures
            direction == self@.motion.direction,
    {
        self.motion.direction
    }

    /// The horizontal position.
    pub fn x(&self) -> (x: i128)
        ensures
            x == self@.motion.x,
    {
        self.motion.x
    }

    /// The vertical position.
    pub fn y(&self) -> (y: i128)
        ensures
            y == self@.motion.y,
    {
        self.motion.y
    }

    /// The frame shown at rest, and the lower end of the range.
    pub fn first_sprite_index(&self) -> (first: usize)
        ensures
            first == self@.first,
    {
        self.first_sprite_index
    }

    /// The upper end of the range of frames.
    pub fn last_sprite_index(&self) -> (last: usize)
        ensures
            last == self@.last,
    {
        self.last_sprite_index
    }

    /// The frames per second.
    pub fn fps(&self) -> (fps: u8)
        ensures
            fps == self@.fps,
    {
        self.fps
    }

    /// The timer that paces the frames.
    pub fn frame_timer(&self) -> (timer: Timer)
        ensures
            timer@ == self@.timer,
    {
        self.frame_timer
    }

    /// The frame that is shown.
    pub fn current_frame_index(&self) -> (frame: usize)
        ensures
            frame == self@.frame,
    {
        self.current_frame_index
    }

    /// Whether the actor is drawn mirrored.
    pub fn mirrored(&self) -> (mirrored: bool)
        ensures
            mirrored == self@.mirrored,
    {
        self.mirrored
    }
}

} // verus!
