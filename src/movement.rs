//! Keyboard movement of the player and the flight of bullets.
use vstd::prelude::*;
use crate::components::{DirectionInput, WindowSize, MAX_COORD};
use crate::entity::{BulletEntity, Player, PLAYER_SCALE};
use crate::world::{bullets_wf, GameWorld};

verus! {

/// Distance the player moves per tick along each pressed direction.
pub const PLAYER_SPEED: i64 = 10;

/// Gap the player keeps from each window edge.
pub const MARGIN: i64 = 20;

/// How far past the window width a bullet flies before it wraps.
pub const WRAP_OFFSET: i64 = 100;

/// Net direction along one axis: `1`, `-1` or `0`.
pub open spec fn axis(pos: bool, neg: bool) -> int {
    (if pos { 1int } else { 0int }) - (if neg { 1int } else { 0int })
}

/// `v` limited to `lo..=hi`.
pub open spec fn clamp(v: int, lo: int, hi: int) -> int {
    if v < lo {
        lo
    } else if v > hi {
        hi
    } else {
        v
    }
}

/// Where the player ends up along one axis of the given window extent.
pub open spec fn step_axis(v: int, dir: int, extent: int) -> int {
    clamp(v + dir * PLAYER_SPEED, -(extent / 2) + MARGIN, extent / 2 - MARGIN)
}

/// Next x of a bullet: once past `width + WRAP_OFFSET` it re-enters at
/// `-width - WRAP_OFFSET`, and it always advances by its speed.
pub open spec fn bullet_x(width: int, x: int, speed: int) -> int {
    (if x > width + WRAP_OFFSET {
        -width - WRAP_OFFSET
    } else {
        x
    }) + speed
}

fn axis_exec(pos: bool, neg: bool) -> (r: i64)
    ensures
        r == axis(pos, neg),
{
    let mut r: i64 = 0;
    if pos {
        r = r + 1;
    }
    if neg {
        r = r - 1;
    }
    r
}

fn clamp_exec(v: i64, lo: i64, hi: i64) -> (r: i64)
    ensures
        r == clamp(v as int, lo as int, hi as int),
{
    if v < lo {
        lo
    } else if v > hi {
        hi
    } else {
        v
    }
}

/// Moves the player one tick in the held directions, keeps it inside the
/// window margin, and turns it to face the way it is going.
pub fn move_player(player: &mut Player, input: DirectionInput, window: WindowSize)
    requires
        old(player).wf(),
        window.wf(),
    ensures
        final(player).wf(),
        player_moved(*old(player), *final(player), input, window),
{
    let dx = axis_exec(input.right, input.left);
    let dy = axis_exec(input.up, input.down);
    player.movement.is_moving = dx != 0 || dy != 0;
    let x = player.transform.translation.x + dx * PLAYER_SPEED;
    let y = player.transform.translation.y + dy * PLAYER_SPEED;
    if dx < 0 {
        player.transform.scale_x = -PLAYER_SCALE;
    } else {
        player.transform.scale_x = PLAYER_SCALE;
    }
    let half_w = window.width / 2;
    let half_h = window.height / 2;
    player.transform.translation.x = clamp_exec(x, -half_w + MARGIN, half_w - MARGIN);
    player.transform.translation.y = clamp_exec(y, -half_h + MARGIN, half_h - MARGIN);
}

/// Advances one bullet by its speed, wrapping it back to the left once it
/// has flown past the right.
pub fn move_bullet(b: &mut BulletEntity, window: WindowSize)
    requires
        old(b).wf(),
        window.wf(),
    ensures
        final(b).wf(),
        bullet_moved(*old(b), *final(b), window),
{
    if b.transform.translation.x > window.width + WRAP_OFFSET {
        b.transform.translation.x = -window.width - WRAP_OFFSET;
    }
    b.transform.translation.x = b.transform.translation.x + b.bullet.speed;
}

/// A bullet that has flown past `width + WRAP_OFFSET` with speed `s`
/// lands at `-width - WRAP_OFFSET + s` on the next tick.
pub proof fn lemma_bullet_wraps(width: int, x: int, s: int)
    requires
        x > width + WRAP_OFFSET,
    ensures
        bullet_x(width, x, s) == -width - WRAP_OFFSET + s,
{
}

/// What one tick of keyboard movement does to a player.
pub open spec fn player_moved(pre: Player, post: Player, input: DirectionInput, window: WindowSize) -> bool {
    &&& post.movement.is_moving == (axis(input.right, input.left) != 0 || axis(input.up, input.down) != 0)
    &&& post.transform.translation.x == step_axis(
        pre.transform.translation.x as int,
        axis(input.right, input.left),
        window.width as int,
    )
    &&& post.transform.translation.y == step_axis(
        pre.transform.translation.y as int,
        axis(input.up, input.down),
        window.height as int,
    )
    &&& post.transform.translation.z == pre.transform.translation.z
    &&& post.transform.scale_x == if axis(input.right, input.left) < 0 {
        -PLAYER_SCALE as int
    } else {
        PLAYER_SCALE as int
    }
    &&& post.transform.scale_y == pre.transform.scale_y
    &&& post.animation == pre.animation
    &&& post.sprite_index == pre.sprite_index
}

/// What the movement system does to the world: only the player moves.
pub open spec fn moved(pre: GameWorld, post: GameWorld, input: DirectionInput, window: WindowSize) -> bool {
    &&& post.game == pre.game
    &&& post.app_state == pre.app_state
    &&& post.crates == pre.crates
    &&& post.bullets == pre.bullets
    &&& post.game_over_text == pre.game_over_text
    &&& post.player.is_some() == pre.player.is_some()
    &&& (post.player matches Some(p) ==> player_moved(pre.player.unwrap(), p, input, window))
}

/// What one tick of bullet flight does to a bullet.
pub open spec fn bullet_moved(pre: BulletEntity, post: BulletEntity, window: WindowSize) -> bool {
    &&& post.transform.translation.x == bullet_x(
        window.width as int,
        pre.transform.translation.x as int,
        pre.bullet.speed as int,
    )
    &&& post.transform.translation.y == pre.transform.translation.y
    &&& post.transform.translation.z == pre.transform.translation.z
    &&& post.transform.scale_x == pre.transform.scale_x
    &&& post.transform.scale_y == pre.transform.scale_y
    &&& post.collider == pre.collider
    &&& post.bullet == pre.bullet
}

/// What the bullet system does to the world: every bullet flies one tick,
/// nothing else changes.
pub open spec fn bullets_moved(pre: GameWorld, post: GameWorld, window: WindowSize) -> bool {
    &&& post.game == pre.game
    &&& post.app_state == pre.app_state
    &&& post.player == pre.player
    &&& post.crates == pre.crates
    &&& post.game_over_text == pre.game_over_text
    &&& post.bullets@.len() == pre.bullets@.len()
    &&& forall|i: int|
        0 <= i < post.bullets@.len() ==> bullet_moved(pre.bullets@[i], #[trigger] post.bullets@[i], window)
}

impl GameWorld {
    /// Applies the held direction keys to the player, if there is one.
    pub fn move_character(&mut self, input: DirectionInput, window: WindowSize)
        requires
            old(self).wf(),
            window.wf(),
        ensures
            final(self).wf(),
            moved(*old(self), *final(self), input, window),
    {
        match &mut self.player {
            Some(p) => move_player(p, input, window),
            None => {},
        }
    }

    /// Moves every bullet one tick to the right, with wraparound.
    pub fn move_bullets(&mut self, window: WindowSize)
        requires
            old(self).wf(),
            window.wf(),
        ensures
            final(self).wf(),
            bullets_moved(*old(self), *final(self), window),
    {
        let n = self.bullets.len();
        let mut i: usize = 0;
        while i < n
            invariant
                n == self.bullets@.len(),
                n == old(self).bullets@.len(),
                i <= n,
                self.game == old(self).game,
                self.app_state == old(self).app_state,
                self.player == old(self).player,
                self.crates == old(self).crates,
                self.game_over_text == old(self).game_over_text,
                window.wf(),
                bullets_wf(old(self).bullets@),
                bullets_wf(self.bullets@),
                forall|j: int| i <= j < n ==> self.bullets@[j] == old(self).bullets@[j],
                forall|j: int| 0 <= j < i ==> bullet_moved(old(self).bullets@[j], #[trigger] self.bullets@[j], window),
            decreases n - i,
        {
            let mut b = self.bullets[i];
            move_bullet(&mut b, window);
            self.bullets.set(i, b);
            i = i + 1;
        }
    }
}

} // verus!
