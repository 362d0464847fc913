//! Plain-value components that entities carry.
use vstd::prelude::*;

verus! {

/// Largest magnitude of any entity coordinate.
pub const MAX_COORD: i64 = 1_000_000_000;

/// Largest window width or height that the game accepts.
pub const MAX_EXTENT: i64 = 1_000_000;

/// Largest horizontal speed a bullet may have.
pub const MAX_SPEED: i64 = 1_000_000;

/// Nanoseconds in one second.
pub const NANOS_PER_SEC: u64 = 1_000_000_000;

/// A point in world units; `z` only orders drawing.
#[derive(Debug, Clone, Copy, PartialEq, Eq, Structural)]
pub struct Position {
    pub x: i64,
    pub y: i64,
    pub z: i64,
}

impl Position {
    pub open spec fn in_world(&self) -> bool {
        -MAX_COORD <= self.x <= MAX_COORD && -MAX_COORD <= self.y <= MAX_COORD && -MAX_COORD
            <= self.z <= MAX_COORD
    }
}

/// Placement and scale of a sprite; a negative `scale_x` mirrors it.
#[derive(Debug, Clone, Copy, PartialEq, Eq, Structural)]
pub struct Transform {
    pub translation: Position,
    pub scale_x: i64,
    pub scale_y: i64,
}

/// Set once the entity has come within reach of the player.
#[derive(Debug, Clone, Copy, PartialEq, Eq, Structural)]
pub struct Collider {
    pub collided: bool,
}

/// Gold a crate gives when picked up.
#[derive(Debug, Clone, Copy, PartialEq, Eq, Structural)]
pub struct Crate {
    pub gold: u32,
}

/// Horizontal distance a bullet travels each tick.
#[derive(Debug, Clone, Copy, PartialEq, Eq, Structural)]
pub struct Bullet {
    pub speed: i64,
}

/// Whether the entity moved on the last tick.
#[derive(Debug, Clone, Copy, PartialEq, Eq, Structural)]
pub struct MovementState {
    pub is_moving: bool,
}

/// Size of the visible window in world units, centred on the origin.
#[derive(Debug, Clone, Copy, PartialEq, Eq, Structural)]
pub struct WindowSize {
    pub width: i64,
    pub height: i64,
}

impl WindowSize {
    /// Wide and tall enough for the movement margin, and small enough that
    /// every coordinate derived from it stays in range.
    pub open spec fn wf(&self) -> bool {
        2 * crate::movement::MARGIN <= self.width <= MAX_EXTENT && 2 * crate::movement::MARGIN
            <= self.height <= MAX_EXTENT
    }
}

/// The direction keys held down on this tick.
#[derive(Debug, Clone, Copy, PartialEq, Eq, Structural)]
pub struct DirectionInput {
    pub up: bool,
    pub down: bool,
    pub left: bool,
    pub right: bool,
}

/// A one-shot countdown measured in nanoseconds. It has run out once
/// `elapsed` reaches `duration`; a zero-length timer has run out from the
/// start.
#[derive(Debug, Clone, Copy, PartialEq, Eq, Structural)]
pub struct FrameTimer {
    pub duration: u64,
    pub elapsed: u64,
    pub just_finished: bool,
}

impl FrameTimer {
    pub open spec fn wf(&self) -> bool {
        self.elapsed <= self.duration
    }

    pub open spec fn finished(&self) -> bool {
        self.elapsed >= self.duration
    }

    /// A fresh timer that runs out after `duration` nanoseconds.
    pub fn new(duration: u64) -> (r: FrameTimer)
        ensures
            r == (FrameTimer { duration, elapsed: 0, just_finished: false }),
    {
        FrameTimer { duration, elapsed: 0, just_finished: false }
    }

    /// Advances the timer by `delta` nanoseconds. Once run out it stays run
    /// out, and `just_finished` is set only on the tick it ran out.
    pub fn tick(&mut self, delta: u64)
        requires
            old(self).wf(),
        ensures
            final(self).wf(),
            final(self).duration == old(self).duration,
            old(self).finished() ==> final(self).elapsed == old(self).elapsed
                && !final(self).just_finished,
            !old(self).finished() ==> final(self).elapsed == if old(self).elapsed + delta
                >= old(self).duration {
                old(self).duration as int
            } else {
                old(self).elapsed + delta
            },
            !old(self).finished() ==> final(self).just_finished == (old(self).elapsed + delta
                >= old(self).duration),
    {
        if self.elapsed >= self.duration {
            self.just_finished = false;
        } else if delta >= self.duration - self.elapsed {
            self.elapsed = self.duration;
            self.just_finished = true;
        } else {
            self.elapsed = self.elapsed + delta;
            self.just_finished = false;
        }
    }
}

/// Which frames of a sprite sheet to cycle through, and how fast.
#[derive(Debug, Clone, Copy, PartialEq, Eq, Structural)]
pub struct AnimationConfig {
    pub first_sprite_index: usize,
    pub last_sprite_index: usize,
    pub fps: u8,
    pub frame_timer: FrameTimer,
}

/// Nanoseconds one frame is shown at `fps` frames per second.
pub open spec fn frame_nanos(fps: u8) -> u64 {
    (NANOS_PER_SEC / fps as u64) as u64
}

impl AnimationConfig {
    pub open spec fn wf(&self) -> bool {
        &&& self.first_sprite_index <= self.last_sprite_index
        &&& self.fps > 0
        &&& self.frame_timer.wf()
    }

    pub fn new(first: usize, last: usize, fps: u8) -> (r: AnimationConfig)
        requires
            fps > 0,
        ensures
            r.first_sprite_index == first,
            r.last_sprite_index == last,
            r.fps == fps,
            r.frame_timer == (FrameTimer { duration: frame_nanos(fps), elapsed: 0, just_finished: false }),
    {
        AnimationConfig {
            first_sprite_index: first,
            last_sprite_index: last,
            fps,
            frame_timer: Self::timer_from_fps(fps),
        }
    }

    /// A fresh timer for one frame at `fps` frames per second.
    pub fn timer_from_fps(fps: u8) -> (r: FrameTimer)
        requires
            fps > 0,
        ensures
            r == (FrameTimer { duration: frame_nanos(fps), elapsed: 0, just_finished: false }),
    {
        FrameTimer::new(NANOS_PER_SEC / (fps as u64))
    }
}

} // verus!
