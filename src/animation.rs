//! Frame-timer driven sprite animation of a moving player.
use vstd::prelude::*;
use crate::components::{frame_nanos, AnimationConfig, FrameTimer};
use crate::entity::Player;
use crate::world::GameWorld;

verus! {

/// The frame after `idx` in the cycle `first..=last`.
pub open spec fn next_frame(idx: usize, first: usize, last: usize) -> usize {
    if idx == last {
        first
    } else {
        (idx + 1) as usize
    }
}

/// The timer runs out on this tick of `delta` nanoseconds.
pub open spec fn runs_out(t: FrameTimer, delta: u64) -> bool {
    !t.finished() && t.elapsed + delta >= t.duration
}

/// What one tick of `delta` nanoseconds does to the player's animation.
pub open spec fn animated(pre: Player, post: Player, delta: u64) -> bool {
    let t = pre.animation.frame_timer;
    &&& post.transform == pre.transform
    &&& post.movement == pre.movement
    &&& post.animation.first_sprite_index == pre.animation.first_sprite_index
    &&& post.animation.last_sprite_index == pre.animation.last_sprite_index
    &&& post.animation.fps == pre.animation.fps
    &&& if !pre.movement.is_moving {
        post == pre
    } else if runs_out(t, delta) {
        &&& post.sprite_index == next_frame(
            pre.sprite_index,
            pre.animation.first_sprite_index,
            pre.animation.last_sprite_index,
        )
        &&& post.animation.frame_timer == (FrameTimer {
            duration: frame_nanos(pre.animation.fps),
            elapsed: 0,
            just_finished: false,
        })
    } else {
        &&& post.sprite_index == pre.sprite_index
        &&& post.animation.frame_timer.duration == t.duration
        &&& post.animation.frame_timer.elapsed == if t.finished() {
            t.elapsed as int
        } else {
            t.elapsed + delta
        }
        &&& !post.animation.frame_timer.just_finished
    }
}

/// Advances the player's run cycle by `delta` nanoseconds while it moves;
/// a player standing still keeps its current frame and timer.
pub fn animate(player: &mut Player, delta: u64)
    requires
        old(player).wf(),
    ensures
        final(player).wf(),
        animated(*old(player), *final(player), delta),
{
    if !player.movement.is_moving {
        return;
    }
    player.animation.frame_timer.tick(delta);
    if player.animation.frame_timer.just_finished {
        if player.sprite_index == player.animation.last_sprite_index {
            player.sprite_index = player.animation.first_sprite_index;
        } else {
            player.sprite_index = player.sprite_index + 1;
        }
        player.animation.frame_timer = AnimationConfig::timer_from_fps(player.animation.fps);
    }
}

/// What the animation system does to the world: only the player's
/// animation advances.
pub open spec fn animated_world(pre: GameWorld, post: GameWorld, delta: u64) -> bool {
    &&& post.game == pre.game
    &&& post.app_state == pre.app_state
    &&& post.crates == pre.crates
    &&& post.bullets == pre.bullets
    &&& post.game_over_text == pre.game_over_text
    &&& post.player.is_some() == pre.player.is_some()
    &&& (post.player matches Some(p) ==> animated(pre.player.unwrap(), p, delta))
}

impl GameWorld {
    /// Runs one animation tick of `delta` nanoseconds.
    pub fn execute_animations(&mut self, delta: u64)
        requires
            old(self).wf(),
        ensures
            final(self).wf(),
            animated_world(*old(self), *final(self), delta),
    {
        match &mut self.player {
            Some(p) => animate(p, delta),
            None => {},
        }
    }
}

} // verus!
