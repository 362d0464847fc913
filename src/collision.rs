//! Marking entities that have come within reach of the player.
use vstd::prelude::*;
use crate::components::{Position, MAX_COORD};
use crate::entity::{BulletEntity, CrateEntity};
use crate::world::{bullets_wf, crates_wf, total_gold, GameWorld};

verus! {

/// Distance from the player within which an entity counts as touched.
pub const COLLISION_RADIUS: i64 = 100;

/// Squared Euclidean distance between two points.
pub open spec fn dist_sq(p: Position, q: Position) -> int {
    (p.x - q.x) * (p.x - q.x) + (p.y - q.y) * (p.y - q.y) + (p.z - q.z) * (p.z - q.z)
}

/// `q` lies strictly within `COLLISION_RADIUS` of `p`.
pub open spec fn touches(p: Position, q: Position) -> bool {
    dist_sq(p, q) < COLLISION_RADIUS * COLLISION_RADIUS
}

/// `q` lies strictly within reach of the player of `w`, if there is one.
pub open spec fn touched_by_player(w: GameWorld, q: Position) -> bool {
    w.player matches Some(p) && touches(p.transform.translation, q)
}

/// What the collision system does to the world: each crate and bullet is
/// flagged if it was already, or if it lies within reach of the player;
/// nothing else changes, and no flag is ever cleared.
pub open spec fn marked(pre: GameWorld, post: GameWorld) -> bool {
    &&& post.game == pre.game
    &&& post.app_state == pre.app_state
    &&& post.player == pre.player
    &&& post.game_over_text == pre.game_over_text
    &&& post.crates@.len() == pre.crates@.len()
    &&& post.bullets@.len() == pre.bullets@.len()
    &&& total_gold(post.crates@) == total_gold(pre.crates@)
    &&& forall|i: int|
        0 <= i < post.crates@.len() ==> {
            let (c0, c1) = (pre.crates@[i], #[trigger] post.crates@[i]);
            &&& c1.transform == c0.transform
            &&& c1.loot == c0.loot
            &&& c1.collider.collided == (c0.collider.collided
                || touched_by_player(pre, c0.transform.translation))
        }
    &&& forall|i: int|
        0 <= i < post.bullets@.len() ==> {
            let (b0, b1) = (pre.bullets@[i], #[trigger] post.bullets@[i]);
            &&& b1.transform == b0.transform
            &&& b1.bullet == b0.bullet
            &&& b1.collider.collided == (b0.collider.collided
                || touched_by_player(pre, b0.transform.translation))
        }
    &&& forall|i: int|
        0 <= i < post.crates@.len() && pre.crates@[i].collider.collided
            ==> #[trigger] post.crates@[i].collider.collided
    &&& forall|i: int|
        0 <= i < post.bullets@.len() && pre.bullets@[i].collider.collided
            ==> #[trigger] post.bullets@[i].collider.collided
}

/// Whether `q` lies strictly within `COLLISION_RADIUS` of `p`.
pub fn in_reach(p: Position, q: Position) -> (r: bool)
    requires
        p.in_world(),
        q.in_world(),
    ensures
        r == touches(p, q),
{
    let dx = p.x as i128 - q.x as i128;
    let dy = p.y as i128 - q.y as i128;
    let dz = p.z as i128 - q.z as i128;
    assert(dx * dx <= 4 * MAX_COORD * MAX_COORD) by (nonlinear_arith)
        requires
            -2 * MAX_COORD <= dx <= 2 * MAX_COORD,
    ;
    assert(dy * dy <= 4 * MAX_COORD * MAX_COORD) by (nonlinear_arith)
        requires
            -2 * MAX_COORD <= dy <= 2 * MAX_COORD,
    ;
    assert(dz * dz <= 4 * MAX_COORD * MAX_COORD) by (nonlinear_arith)
        requires
            -2 * MAX_COORD <= dz <= 2 * MAX_COORD,
    ;
    assert(0 <= dx * dx && 0 <= dy * dy && 0 <= dz * dz) by (nonlinear_arith);
    let d = dx * dx + dy * dy + dz * dz;
    let r = COLLISION_RADIUS as i128;
    d < r * r
}


/// Flags each crate of `crates` that lies within reach of `p`.
fn mark_crates(crates: &mut Vec<CrateEntity>, p: Position)
    requires
        p.in_world(),
        crates_wf(old(crates)@),
    ensures
        crates_wf(final(crates)@),
        final(crates)@.len() == old(crates)@.len(),
        forall|j: int|
            0 <= j < final(crates)@.len() ==> {
                let (c0, c1) = (old(crates)@[j], #[trigger] final(crates)@[j]);
                &&& c1.transform == c0.transform
                &&& c1.loot == c0.loot
                &&& c1.collider.collided == (c0.collider.collided || touches(
                    p,
                    c0.transform.translation,
                ))
            },
{
    let n = crates.len();
    let mut i: usize = 0;
    while i < n
        invariant
            n == crates@.len(),
            n == old(crates)@.len(),
            i <= n,
            p.in_world(),
            crates_wf(old(crates)@),
            crates_wf(crates@),
            forall|j: int| i <= j < n ==> crates@[j] == old(crates)@[j],
            forall|j: int|
                0 <= j < i ==> {
                    let (c0, c1) = (old(crates)@[j], #[trigger] crates@[j]);
                    &&& c1.transform == c0.transform
                    &&& c1.loot == c0.loot
                    &&& c1.collider.collided == (c0.collider.collided || touches(
                        p,
                        c0.transform.translation,
                    ))
                },
        decreases n - i,
    {
        let mut c = crates[i];
        assert(c.wf());
        if !c.collider.collided && in_reach(p, c.transform.translation) {
            c.collider.collided = true;
        }
        crates.set(i, c);
        i = i + 1;
    }
}

/// Flags each bullet of `bullets` that lies within reach of `p`.
fn mark_bullets(bullets: &mut Vec<BulletEntity>, p: Position)
    requires
        p.in_world(),
        bullets_wf(old(bullets)@),
    ensures
        bullets_wf(final(bullets)@),
        final(bullets)@.len() == old(bullets)@.len(),
        forall|j: int|
            0 <= j < final(bullets)@.len() ==> {
                let (b0, b1) = (old(bullets)@[j], #[trigger] final(bullets)@[j]);
                &&& b1.transform == b0.transform
                &&& b1.bullet == b0.bullet
                &&& b1.collider.collided == (b0.collider.collided || touches(
                    p,
                    b0.transform.translation,
                ))
            },
{
    let n = bullets.len();
    let mut i: usize = 0;
    while i < n
        invariant
            n == bullets@.len(),
            n == old(bullets)@.len(),
            i <= n,
            p.in_world(),
            bullets_wf(old(bullets)@),
            bullets_wf(bullets@),
            forall|j: int| i <= j < n ==> bullets@[j] == old(bullets)@[j],
            forall|j: int|
                0 <= j < i ==> {
                    let (b0, b1) = (old(bullets)@[j], #[trigger] bullets@[j]);
                    &&& b1.transform == b0.transform
                    &&& b1.bullet == b0.bullet
                    &&& b1.collider.collided == (b0.collider.collided || touches(
                        p,
                        b0.transform.translation,
                    ))
                },
        decreases n - i,
    {
        let mut b = bullets[i];
        assert(b.wf());
        if !b.collider.collided && in_reach(p, b.transform.translation) {
            b.collider.collided = true;
        }
        bullets.set(i, b);
        i = i + 1;
    }
}

impl GameWorld {
    /// Flags every crate and bullet within reach of the player. A flag once
    /// set is never cleared here; without a player nothing changes.
    pub fn collision(&mut self)
        requires
            old(self).wf(),
        ensures
            final(self).wf(),
            marked(*old(self), *final(self)),
    {
        let p = match self.player {
            Some(p) => p.transform.translation,
            None => {
                proof {
                    assert(self.crates@ =~= old(self).crates@);
                }
                return;
            },
        };
        mark_crates(&mut self.crates, p);
        mark_bullets(&mut self.bullets, p);
        proof {
            lemma_total_gold_same(old(self).crates@, self.crates@);
        }
    }
}

/// Two crate lists of equal length whose crates hold the same gold hold the
/// same gold in total.
proof fn lemma_total_gold_same(a: Seq<CrateEntity>, b: Seq<CrateEntity>)
    requires
        a.len() == b.len(),
        forall|i: int| 0 <= i < a.len() ==> (#[trigger] a[i]).loot == b[i].loot,
    ensures
        total_gold(a) == total_gold(b),
    decreases a.len(),
{
    if a.len() > 0 {
        lemma_total_gold_same(a.drop_last(), b.drop_last());
    }
}

} // verus!
