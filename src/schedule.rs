//! One tick of the game: the systems in their fixed order.
use vstd::prelude::*;
use crate::animation::animated_world;
use crate::collision::marked;
use crate::components::{DirectionInput, WindowSize};
use crate::control::{game_over_step, restart_step};
use crate::movement::{bullets_moved, moved};
use crate::resolution::{hit, looted};
use crate::state::{initial_game, lemma_damage_bounded, MAX_HEALTH};
use crate::world::{hits, lemma_pending_le_total, GameWorld};

verus! {

/// One tick from `pre` to `post`, passing through the world after each
/// system in turn: player movement, bullet flight, collision marking, loot,
/// damage, animation, the game-over check, and a restart when
/// `restart_pressed`. Loot and damage thus see every flag set this tick.
pub open spec fn ticked(
    pre: GameWorld,
    post: GameWorld,
    input: DirectionInput,
    window: WindowSize,
    delta: u64,
    restart_pressed: bool,
) -> bool {
    exists|
        w1: GameWorld,
        w2: GameWorld,
        w3: GameWorld,
        w4: GameWorld,
        w5: GameWorld,
        w6: GameWorld,
        w7: GameWorld,
    |
        #![trigger moved(pre, w1, input, window), bullets_moved(w1, w2, window), marked(w2, w3), looted(w3, w4), hit(w4, w5), animated_world(w5, w6, delta), game_over_step(w6, w7)]
        {
            &&& moved(pre, w1, input, window)
            &&& bullets_moved(w1, w2, window)
            &&& marked(w2, w3)
            &&& looted(w3, w4)
            &&& hit(w4, w5)
            &&& animated_world(w5, w6, delta)
            &&& game_over_step(w6, w7)
            &&& if restart_pressed {
                restart_step(w7, post)
            } else {
                post == w7
            }
        }
}

/// Over any tick, health stays within `0..=MAX_HEALTH`, and gold never goes
/// down except when a restart resets the game.
pub proof fn lemma_tick_keeps_bounds(
    pre: GameWorld,
    post: GameWorld,
    input: DirectionInput,
    window: WindowSize,
    delta: u64,
    restart_pressed: bool,
)
    requires
        pre.game.wf(),
        ticked(pre, post, input, window, delta, restart_pressed),
    ensures
        post.game.health <= MAX_HEALTH,
        post.game.gold >= pre.game.gold || (restart_pressed && post.game == initial_game()),
{
    let (w1, w2, w3, w4, w5, w6, w7) = choose|
        w1: GameWorld,
        w2: GameWorld,
        w3: GameWorld,
        w4: GameWorld,
        w5: GameWorld,
        w6: GameWorld,
        w7: GameWorld,
    |
        {
            &&& moved(pre, w1, input, window)
            &&& bullets_moved(w1, w2, window)
            &&& marked(w2, w3)
            &&& looted(w3, w4)
            &&& hit(w4, w5)
            &&& animated_world(w5, w6, delta)
            &&& game_over_step(w6, w7)
            &&& if restart_pressed {
                restart_step(w7, post)
            } else {
                post == w7
            }
        };
    lemma_damage_bounded(w4.game.health, hits(w4.bullets@));
}

impl GameWorld {
    /// Runs one tick: player and bullet movement, then collision marking,
    /// then loot and damage, then animation, then the game-over check, and
    /// finally a restart when `restart_pressed`.
    pub fn tick(
        &mut self,
        input: DirectionInput,
        window: WindowSize,
        delta: u64,
        restart_pressed: bool,
    )
        requires
            old(self).wf(),
            old(self).gold_fits(),
            window.wf(),
        ensures
            final(self).wf(),
            ticked(*old(self), *final(self), input, window, delta, restart_pressed),
            final(self).game.health <= MAX_HEALTH,
            final(self).game.gold >= old(self).game.gold
                || (restart_pressed && final(self).game == initial_game()),
    {
        self.move_character(input, window);
        let ghost w1 = *self;
        self.move_bullets(window);
        let ghost w2 = *self;
        self.collision();
        let ghost w3 = *self;
        proof {
            lemma_pending_le_total(self.crates@);
        }
        self.loot();
        let ghost w4 = *self;
        self.bullet_damage();
        let ghost w5 = *self;
        self.execute_animations(delta);
        let ghost w6 = *self;
        self.game_over();
        let ghost w7 = *self;
        if restart_pressed {
            self.restart_game();
        }
        proof {
            assert(moved(*old(self), w1, input, window) && bullets_moved(w1, w2, window) && marked(
                w2,
                w3,
            ) && looted(w3, w4) && hit(w4, w5) && animated_world(w5, w6, delta) && game_over_step(
                w6,
                w7,
            ));
            lemma_tick_keeps_bounds(*old(self), *self, input, window, delta, restart_pressed);
        }
    }
}

} // verus!
