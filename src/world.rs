//! The entity store: every live entity plus the shared game state.
use vstd::prelude::*;
use crate::entity::{BulletEntity, CrateEntity, Player};
use crate::state::{AppState, GameState};

verus! {

/// Everything the game keeps between ticks. There is at most one player.
#[derive(Debug, Clone)]
pub struct GameWorld {
    pub game: GameState,
    pub app_state: AppState,
    pub player: Option<Player>,
    pub crates: Vec<CrateEntity>,
    pub bullets: Vec<BulletEntity>,
    /// Whether the game-over message is on screen.
    pub game_over_text: bool,
}

/// All crates in `s` are well formed.
pub open spec fn crates_wf(s: Seq<CrateEntity>) -> bool {
    forall|i: int| 0 <= i < s.len() ==> #[trigger] s[i].wf()
}

/// All bullets in `s` are well formed.
pub open spec fn bullets_wf(s: Seq<BulletEntity>) -> bool {
    forall|i: int| 0 <= i < s.len() ==> #[trigger] s[i].wf()
}

/// Gold held by all crates in `s`.
pub open spec fn total_gold(s: Seq<CrateEntity>) -> nat
    decreases s.len(),
{
    if s.len() == 0 {
        0
    } else {
        total_gold(s.drop_last()) + s.last().loot.gold as nat
    }
}

/// Gold held by the crates in `s` that have been touched.
pub open spec fn pending_gold(s: Seq<CrateEntity>) -> nat
    decreases s.len(),
{
    if s.len() == 0 {
        0
    } else {
        pending_gold(s.drop_last()) + if s.last().collider.collided {
            s.last().loot.gold as nat
        } else {
            0
        }
    }
}

/// The crates of `s` that have not been touched, in order.
pub open spec fn untouched_crates(s: Seq<CrateEntity>) -> Seq<CrateEntity>
    decreases s.len(),
{
    if s.len() == 0 {
        s
    } else if s.last().collider.collided {
        untouched_crates(s.drop_last())
    } else {
        untouched_crates(s.drop_last()).push(s.last())
    }
}

/// Number of bullets in `s` that have been touched.
pub open spec fn hits(s: Seq<BulletEntity>) -> nat
    decreases s.len(),
{
    if s.len() == 0 {
        0
    } else {
        hits(s.drop_last()) + if s.last().collider.collided {
            1nat
        } else {
            0
        }
    }
}

/// The bullets of `s` that have not been touched, in order.
pub open spec fn untouched_bullets(s: Seq<BulletEntity>) -> Seq<BulletEntity>
    decreases s.len(),
{
    if s.len() == 0 {
        s
    } else if s.last().collider.collided {
        untouched_bullets(s.drop_last())
    } else {
        untouched_bullets(s.drop_last()).push(s.last())
    }
}

/// Gold of touched crates never exceeds gold of all crates.
pub proof fn lemma_pending_le_total(s: Seq<CrateEntity>)
    ensures
        pending_gold(s) <= total_gold(s),
    decreases s.len(),
{
    if s.len() > 0 {
        lemma_pending_le_total(s.drop_last());
    }
}

/// Untouched crates keep their well-formedness.
pub proof fn lemma_untouched_crates_wf(s: Seq<CrateEntity>)
    requires
        crates_wf(s),
    ensures
        crates_wf(untouched_crates(s)),
        forall|i: int|
            0 <= i < untouched_crates(s).len() ==> !(#[trigger] untouched_crates(s)[i]).collider.collided,
    decreases s.len(),
{
    if s.len() > 0 {
        assert(crates_wf(s.drop_last()));
        lemma_untouched_crates_wf(s.drop_last());
    }
}

/// Untouched bullets keep their well-formedness.
pub proof fn lemma_untouched_bullets_wf(s: Seq<BulletEntity>)
    requires
        bullets_wf(s),
    ensures
        bullets_wf(untouched_bullets(s)),
        forall|i: int|
            0 <= i < untouched_bullets(s).len() ==> !(#[trigger] untouched_bullets(s)[i]).collider.collided,
    decreases s.len(),
{
    if s.len() > 0 {
        assert(bullets_wf(s.drop_last()));
        lemma_untouched_bullets_wf(s.drop_last());
    }
}

impl GameWorld {
    pub open spec fn wf(&self) -> bool {
        &&& self.game.wf()
        &&& (self.player matches Some(p) ==> p.wf())
        &&& crates_wf(self.crates@)
        &&& bullets_wf(self.bullets@)
    }

    /// The gold total can absorb every crate in the scene without overflow.
    pub open spec fn gold_fits(&self) -> bool {
        self.game.gold + total_gold(self.crates@) <= u32::MAX
    }

    /// A fresh scene: full health, no gold, the player at the origin and
    /// nothing else.
    pub fn new() -> (r: GameWorld)
        ensures
            r.wf(),
            r.game == crate::state::initial_game(),
            r.app_state == AppState::InGame,
            r.player matches Some(p) && p.is_fresh(),
            r.crates@.len() == 0,
            r.bullets@.len() == 0,
            !r.game_over_text,
    {
        GameWorld {
            game: GameState::default(),
            app_state: AppState::InGame,
            player: Some(Player::create_player()),
            crates: Vec::new(),
            bullets: Vec::new(),
            game_over_text: false,
        }
    }

    /// Whether every crate's gold can still be added to the total.
    pub fn has_gold_room(&self) -> (r: bool)
        ensures
            r == self.gold_fits(),
    {
        let mut sum: u64 = self.game.gold as u64;
        let mut i: usize = 0;
        while i < self.crates.len()
            invariant
                i <= self.crates@.len(),
                sum == self.game.gold + total_gold(self.crates@.take(i as int)),
                sum <= u32::MAX,
            decreases self.crates@.len() - i,
        {
            assert(self.crates@.take(i as int + 1).drop_last() =~= self.crates@.take(i as int));
            sum = sum + self.crates[i].loot.gold as u64;
            if sum > u32::MAX as u64 {
                proof {
                    lemma_total_prefix(self.crates@, i as int + 1);
                }
                return false;
            }
            i = i + 1;
        }
        assert(self.crates@.take(i as int) =~= self.crates@);
        true
    }
}

/// The gold of a prefix never exceeds the gold of the whole.
pub proof fn lemma_total_prefix(s: Seq<CrateEntity>, n: int)
    requires
        0 <= n <= s.len(),
    ensures
        total_gold(s.take(n)) <= total_gold(s),
    decreases s.len(),
{
    if n < s.len() {
        assert(s.drop_last().take(n) =~= s.take(n));
        lemma_total_prefix(s.drop_last(), n);
    } else {
        assert(s.take(n) =~= s);
    }
}

} // verus!
