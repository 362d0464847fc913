//! Consuming collision flags: crates give gold, bullets take health.
use vstd::prelude::*;
use crate::entity::{BulletEntity, CrateEntity};
use crate::state::{damaged_n, lemma_damage_bounded, BULLET_DAMAGE};
use crate::world::{
    bullets_wf, crates_wf, hits, lemma_untouched_bullets_wf, lemma_untouched_crates_wf,
    pending_gold, untouched_bullets, untouched_crates, GameWorld,
};

verus! {

/// Gold of touched crates in a prefix never exceeds that of the whole.
proof fn lemma_pending_prefix(s: Seq<CrateEntity>, n: int)
    requires
        0 <= n <= s.len(),
    ensures
        pending_gold(s.take(n)) <= pending_gold(s),
    decreases s.len(),
{
    if n < s.len() {
        assert(s.drop_last().take(n) =~= s.take(n));
        lemma_pending_prefix(s.drop_last(), n);
    } else {
        assert(s.take(n) =~= s);
    }
}

/// What the loot system does to the world: the gold of every touched crate
/// is added to the total and those crates are removed; untouched crates
/// stay, in order, and nothing else changes.
pub open spec fn looted(pre: GameWorld, post: GameWorld) -> bool {
    &&& post.game.gold == pre.game.gold + pending_gold(pre.crates@)
    &&& post.game.health == pre.game.health
    &&& post.game.is_game_over == pre.game.is_game_over
    &&& post.crates@ == untouched_crates(pre.crates@)
    &&& post.app_state == pre.app_state
    &&& post.player == pre.player
    &&& post.bullets == pre.bullets
    &&& post.game_over_text == pre.game_over_text
}

/// What the damage system does to the world: one hit per touched bullet is
/// taken from health and those bullets are removed; untouched bullets stay,
/// in order, and nothing else changes.
pub open spec fn hit(pre: GameWorld, post: GameWorld) -> bool {
    &&& post.game.health == damaged_n(pre.game.health, hits(pre.bullets@))
    &&& post.game.gold == pre.game.gold
    &&& post.game.is_game_over == pre.game.is_game_over
    &&& post.bullets@ == untouched_bullets(pre.bullets@)
    &&& post.app_state == pre.app_state
    &&& post.player == pre.player
    &&& post.crates == pre.crates
    &&& post.game_over_text == pre.game_over_text
}

impl GameWorld {
    /// Adds the gold of every touched crate to the total and removes those
    /// crates; untouched crates stay, in order.
    pub fn loot(&mut self)
        requires
            old(self).wf(),
            old(self).game.gold + pending_gold(old(self).crates@) <= u32::MAX,
        ensures
            final(self).wf(),
            looted(*old(self), *final(self)),
    {
        let ghost all = self.crates@;
        let mut kept: Vec<CrateEntity> = Vec::new();
        let mut i: usize = 0;
        while i < self.crates.len()
            invariant
                self.crates@ == all,
                all == old(self).crates@,
                i <= all.len(),
                kept@ == untouched_crates(all.take(i as int)),
                self.game.gold == old(self).game.gold + pending_gold(all.take(i as int)),
                self.game.gold + pending_gold(all) <= u32::MAX + pending_gold(all.take(i as int)),
                self.game.health == old(self).game.health,
                self.game.is_game_over == old(self).game.is_game_over,
                self.app_state == old(self).app_state,
                self.player == old(self).player,
                self.bullets == old(self).bullets,
                self.game_over_text == old(self).game_over_text,
            decreases all.len() - i,
        {
            let c = self.crates[i];
            proof {
                assert(all.take(i as int + 1).drop_last() =~= all.take(i as int));
                lemma_pending_prefix(all, i as int + 1);
            }
            if c.collider.collided {
                self.game.add_gold(c.loot.gold);
            } else {
                kept.push(c);
            }
            i = i + 1;
        }
        proof {
            assert(all.take(i as int) =~= all);
            lemma_untouched_crates_wf(all);
        }
        self.crates = kept;
    }

    /// Takes `BULLET_DAMAGE` health (never below zero) for every touched
    /// bullet and removes those bullets; untouched bullets stay, in order.
    pub fn bullet_damage(&mut self)
        requires
            old(self).wf(),
        ensures
            final(self).wf(),
            hit(*old(self), *final(self)),
            final(self).game.health as int == if old(self).game.health as int > BULLET_DAMAGE * hits(
                old(self).bullets@,
            ) {
                old(self).game.health - BULLET_DAMAGE * hits(old(self).bullets@)
            } else {
                0
            },
    {
        let ghost all = self.bullets@;
        let mut kept: Vec<BulletEntity> = Vec::new();
        let mut i: usize = 0;
        while i < self.bullets.len()
            invariant
                self.bullets@ == all,
                all == old(self).bullets@,
                i <= all.len(),
                kept@ == untouched_bullets(all.take(i as int)),
                self.game.health == damaged_n(old(self).game.health, hits(all.take(i as int))),
                self.game.health <= old(self).game.health,
                old(self).game.wf(),
                self.game.gold == old(self).game.gold,
                self.game.is_game_over == old(self).game.is_game_over,
                self.app_state == old(self).app_state,
                self.player == old(self).player,
                self.crates == old(self).crates,
                self.game_over_text == old(self).game_over_text,
            decreases all.len() - i,
        {
            let b = self.bullets[i];
            proof {
                assert(all.take(i as int + 1).drop_last() =~= all.take(i as int));
            }
            if b.collider.collided {
                self.game.take_hit();
            } else {
                kept.push(b);
            }
            i = i + 1;
        }
        proof {
            assert(all.take(i as int) =~= all);
            lemma_untouched_bullets_wf(all);
            lemma_damage_bounded(old(self).game.health, hits(all));
        }
        self.bullets = kept;
    }
}

} // verus!
