//! The three kinds of entity in the scene.
use vstd::prelude::*;
use crate::components::{
    AnimationConfig, Bullet, Collider, Crate, MovementState, Position, Transform, MAX_SPEED,
};

verus! {

/// Scale of the player's sprite; its sign on x tells the facing.
pub const PLAYER_SCALE: i64 = 6;

/// Scale of crate and bullet sprites.
pub const PICKUP_SCALE: i64 = 4;

/// Gold inside every spawned crate.
pub const CRATE_GOLD: u32 = 100;

/// Speed of every spawned bullet.
pub const BULLET_SPEED: i64 = 10;

/// Draw depth of crates and bullets, behind the player.
pub const PICKUP_DEPTH: i64 = -1;

/// First and last frame of the player's run cycle, and its frame rate.
pub const PLAYER_FIRST_FRAME: usize = 0;
pub const PLAYER_LAST_FRAME: usize = 6;
pub const PLAYER_FPS: u8 = 12;

/// The character the keyboard controls.
#[derive(Debug, Clone, Copy, PartialEq, Eq, Structural)]
pub struct Player {
    pub transform: Transform,
    pub movement: MovementState,
    pub animation: AnimationConfig,
    pub sprite_index: usize,
}

impl Player {
    pub open spec fn wf(&self) -> bool {
        &&& self.transform.translation.in_world()
        &&& self.animation.wf()
        &&& self.animation.first_sprite_index <= self.sprite_index
        &&& self.sprite_index <= self.animation.last_sprite_index
    }

    /// A freshly created player: at the origin, facing right, standing
    /// still on the first frame of its run cycle.
    pub open spec fn is_fresh(&self) -> bool {
        &&& self.transform == (Transform {
            translation: Position { x: 0, y: 0, z: 0 },
            scale_x: PLAYER_SCALE,
            scale_y: PLAYER_SCALE,
        })
        &&& !self.movement.is_moving
        &&& self.animation.first_sprite_index == PLAYER_FIRST_FRAME
        &&& self.animation.last_sprite_index == PLAYER_LAST_FRAME
        &&& self.animation.fps == PLAYER_FPS
        &&& self.animation.frame_timer.elapsed == 0
        &&& !self.animation.frame_timer.just_finished
        &&& self.sprite_index == PLAYER_FIRST_FRAME
    }

    pub fn create_player() -> (r: Player)
        ensures
            r.wf(),
            r.is_fresh(),
    {
        let animation = AnimationConfig::new(PLAYER_FIRST_FRAME, PLAYER_LAST_FRAME, PLAYER_FPS);
        Player {
            transform: Transform {
                translation: Position { x: 0, y: 0, z: 0 },
                scale_x: PLAYER_SCALE,
                scale_y: PLAYER_SCALE,
            },
            movement: MovementState { is_moving: false },
            animation,
            sprite_index: animation.first_sprite_index,
        }
    }
}

/// A crate waiting to be picked up.
#[derive(Debug, Clone, Copy, PartialEq, Eq, Structural)]
pub struct CrateEntity {
    pub transform: Transform,
    pub collider: Collider,
    pub loot: Crate,
}

impl CrateEntity {
    pub open spec fn wf(&self) -> bool {
        self.transform.translation.in_world()
    }

    /// A new crate at `(x, y)`, not yet touched.
    pub open spec fn spawned_at(x: i64, y: i64) -> CrateEntity {
        CrateEntity {
            transform: Transform {
                translation: Position { x, y, z: PICKUP_DEPTH },
                scale_x: PICKUP_SCALE,
                scale_y: PICKUP_SCALE,
            },
            collider: Collider { collided: false },
            loot: Crate { gold: CRATE_GOLD },
        }
    }
}

/// A bullet crossing the screen from left to right.
#[derive(Debug, Clone, Copy, PartialEq, Eq, Structural)]
pub struct BulletEntity {
    pub transform: Transform,
    pub collider: Collider,
    pub bullet: Bullet,
}

impl BulletEntity {
    pub open spec fn wf(&self) -> bool {
        &&& self.transform.translation.in_world()
        &&& 0 <= self.bullet.speed <= MAX_SPEED
    }

    /// A new bullet at `(x, y)`, not yet touched.
    pub open spec fn spawned_at(x: i64, y: i64) -> BulletEntity {
        BulletEntity {
            transform: Transform {
                translation: Position { x, y, z: PICKUP_DEPTH },
                scale_x: PICKUP_SCALE,
                scale_y: PICKUP_SCALE,
            },
            collider: Collider { collided: false },
            bullet: Bullet { speed: BULLET_SPEED },
        }
    }
}

} // verus!
