//! Timed creation of crates and bullets at random places.
use vstd::prelude::*;
use rand::Rng;
use crate::components::{Bullet, Collider, Crate, Position, Transform, WindowSize, MAX_COORD};
use crate::entity::{
    BulletEntity, CrateEntity, BULLET_SPEED, CRATE_GOLD, PICKUP_DEPTH, PICKUP_SCALE,
};
use crate::state::AppState;
use crate::world::{bullets_wf, crates_wf, GameWorld};

verus! {

/// Relies on `rand::Rng::random_range` (rand 0.9) with the thread-local
/// generator: it returns a value of the half-open range `lo..hi`. It panics
/// on an empty range, which `requires` rules out, and the thread-local
/// generator panics if the operating system's entropy source fails when it
/// is first seeded or reseeded, which no input can prevent.
#[verifier::external_body]
fn random_in(lo: i64, hi: i64) -> (r: i64)
    requires
        lo < hi,
    ensures
        lo <= r < hi,
{
    rand::rng().random_range(lo..hi)
}

impl GameWorld {
    /// Adds one untouched crate at `(x, y)`.
    pub fn spawn_crate_at(&mut self, x: i64, y: i64)
        requires
            old(self).wf(),
            -MAX_COORD <= x <= MAX_COORD,
            -MAX_COORD <= y <= MAX_COORD,
        ensures
            final(self).wf(),
            final(self).crates@ == old(self).crates@.push(CrateEntity::spawned_at(x, y)),
            final(self).game == old(self).game,
            final(self).app_state == old(self).app_state,
            final(self).player == old(self).player,
            final(self).bullets == old(self).bullets,
            final(self).game_over_text == old(self).game_over_text,
    {
        let c = CrateEntity {
            transform: Transform {
                translation: Position { x, y, z: PICKUP_DEPTH },
                scale_x: PICKUP_SCALE,
                scale_y: PICKUP_SCALE,
            },
            collider: Collider { collided: false },
            loot: Crate { gold: CRATE_GOLD },
        };
        self.crates.push(c);
        assert(crates_wf(self.crates@)) by {
            assert(forall|i: int| 0 <= i < old(self).crates@.len() ==> self.crates@[i] == old(self).crates@[i]);
        }
    }

    /// Adds one untouched bullet at the left edge of the window, height `y`.
    pub fn spawn_bullet_at(&mut self, window: WindowSize, y: i64)
        requires
            old(self).wf(),
            window.wf(),
            -MAX_COORD <= y <= MAX_COORD,
        ensures
            final(self).wf(),
            final(self).bullets@ == old(self).bullets@.push(
                BulletEntity::spawned_at((-(window.width / 2)) as i64, y),
            ),
            final(self).game == old(self).game,
            final(self).app_state == old(self).app_state,
            final(self).player == old(self).player,
            final(self).crates == old(self).crates,
            final(self).game_over_text == old(self).game_over_text,
    {
        let b = BulletEntity {
            transform: Transform {
                translation: Position {
                    x: -(window.width / 2),
                    y,
                    z: PICKUP_DEPTH,
                },
                scale_x: PICKUP_SCALE,
                scale_y: PICKUP_SCALE,
            },
            collider: Collider { collided: false },
            bullet: Bullet { speed: BULLET_SPEED },
        };
        self.bullets.push(b);
        assert(bullets_wf(self.bullets@)) by {
            assert(forall|i: int| 0 <= i < old(self).bullets@.len() ==> self.bullets@[i] == old(self).bullets@[i]);
        }
    }

    /// While the game runs, adds one crate at a random place inside the
    /// window; while paused, does nothing.
    pub fn spawn_crates(&mut self, window: WindowSize)
        requires
            old(self).wf(),
            window.wf(),
        ensures
            final(self).wf(),
            old(self).app_state != AppState::InGame ==> *final(self) == *old(self),
            old(self).app_state == AppState::InGame ==> exists|x: i64, y: i64|
                {
                    &&& -(window.width / 2) <= x < window.width / 2
                    &&& -(window.height / 2) <= y < window.height / 2
                    &&& final(self).crates@ == old(self).crates@.push(
                        #[trigger] CrateEntity::spawned_at(x, y),
                    )
                },
            final(self).game == old(self).game,
            final(self).app_state == old(self).app_state,
            final(self).player == old(self).player,
            final(self).bullets == old(self).bullets,
            final(self).game_over_text == old(self).game_over_text,
    {
        if self.app_state != AppState::InGame {
            return;
        }
        let half_w = window.width / 2;
        let half_h = window.height / 2;
        let x = random_in(-half_w, half_w);
        let y = random_in(-half_h, half_h);
        self.spawn_crate_at(x, y);
    }

    /// While the game runs, adds one bullet at the left edge of the window
    /// at a random height; while paused, does nothing.
    pub fn spawn_bullets(&mut self, window: WindowSize)
        requires
            old(self).wf(),
            window.wf(),
        ensures
            final(self).wf(),
            old(self).app_state != AppState::InGame ==> *final(self) == *old(self),
            old(self).app_state == AppState::InGame ==> exists|y: i64|
                {
                    &&& -(window.height / 2) <= y < window.height / 2
                    &&& final(self).bullets@ == old(self).bullets@.push(
                        #[trigger] BulletEntity::spawned_at((-(window.width / 2)) as i64, y),
                    )
                },
            final(self).game == old(self).game,
            final(self).app_state == old(self).app_state,
            final(self).player == old(self).player,
            final(self).crates == old(self).crates,
            final(self).game_over_text == old(self).game_over_text,
    {
        if self.app_state != AppState::InGame {
            return;
        }
        let half_h = window.height / 2;
        let y = random_in(-half_h, half_h);
        self.spawn_bullet_at(window, y);
    }
}

} // verus!
