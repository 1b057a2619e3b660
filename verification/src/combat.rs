//! The projectile-versus-target resolver: a pairwise shape overlap test
//! between projectiles and player or enemy entities.  A projectile that
//! overlaps any target despawns; a target that any projectile overlaps
//! despawns; the score grows by the fixed per-hit amount once per hit
//! projectile.  Each entity receives at most one resolution action per
//! frame.

use vstd::prelude::*;

use crate::collision::{entities_overlap, ents_overlap};
use crate::units::POS_MOVED_LIMIT;
use crate::world::{
    ent_ok, ents_ok, pos_bounded, Entity, Role, SimModel, Simulation, SCORE_PER_HIT,
};

verus! {

/// Roles a projectile can hit.
pub open spec fn is_target(r: Role) -> bool {
    r is Player || r is Enemy
}

/// Whether the entity at `i` is a projectile whose shape overlaps some
/// target's shape.
pub open spec fn proj_hit(s: Seq<Entity>, i: int) -> bool {
    &&& s[i].role is Projectile
    &&& exists|j: int|
        0 <= j < s.len() && is_target((#[trigger] s[j]).role) && ents_overlap(s[i], s[j])
}

/// Whether the entity at `j` is a target some projectile's shape
/// overlaps.
pub open spec fn target_hit(s: Seq<Entity>, j: int) -> bool {
    &&& is_target(s[j].role)
    &&& exists|i: int|
        0 <= i < s.len() && (#[trigger] s[i]).role is Projectile && ents_overlap(s[i], s[j])
}

/// Whether the entity at `k` despawns in this stage.
pub open spec fn hit(s: Seq<Entity>, k: int) -> bool {
    proj_hit(s, k) || target_hit(s, k)
}

/// The indices below `n` whose entities survive the stage, in order.
pub open spec fn survivor_indices_upto(s: Seq<Entity>, n: int) -> Seq<int>
    decreases n,
{
    if n <= 0 {
        Seq::empty()
    } else if !hit(s, n - 1) {
        survivor_indices_upto(s, n - 1).push(n - 1)
    } else {
        survivor_indices_upto(s, n - 1)
    }
}

/// The entities that survive the stage, in their original order.
pub open spec fn combat_survivors(s: Seq<Entity>) -> Seq<Entity> {
    survivor_indices_upto(s, s.len() as int).map_values(|k: int| s[k])
}

/// How many projectiles below `n` hit something this frame.
pub open spec fn hit_proj_count(s: Seq<Entity>, n: int) -> int
    decreases n,
{
    if n <= 0 {
        0
    } else {
        hit_proj_count(s, n - 1) + if proj_hit(s, n - 1) {
            1int
        } else {
            0int
        }
    }
}

/// Addition on the score counter, saturating at the machine bound.
pub open spec fn sat_add_u64(a: int, d: int) -> int {
    if a + d <= u64::MAX {
        a + d
    } else {
        u64::MAX as int
    }
}

/// The resolver's effect on the whole state: the hit entities leave, the
/// score grows once per hit projectile, everything else is untouched.
pub open spec fn combat_stage(m: SimModel) -> SimModel {
    SimModel {
        ents: combat_survivors(m.ents),
        score: sat_add_u64(
            m.score,
            (SCORE_PER_HIT as int) * hit_proj_count(m.ents, m.ents.len() as int),
        ),
        ..m
    }
}

/// Whether some target's shape overlaps the projectile at `k`.
fn scan_target_overlap(ents: &Vec<Entity>, k: usize) -> (found: bool)
    requires
        k < ents@.len(),
        ents_ok(ents@),
        pos_bounded(ents@, POS_MOVED_LIMIT as int),
    ensures
        found == exists|j: int|
            0 <= j < ents@.len() && is_target((#[trigger] ents@[j]).role) && ents_overlap(
                ents@[k as int],
                ents@[j],
            ),
{
    let ek = ents[k];
    let n = ents.len();
    let mut j: usize = 0;
    while j < n
        invariant
            n == ents@.len(),
            k < n,
            ek == ents@[k as int],
            ents_ok(ents@),
            pos_bounded(ents@, POS_MOVED_LIMIT as int),
            0 <= j <= n,
            forall|t: int|
                0 <= t < j ==> !(is_target((#[trigger] ents@[t]).role) && ents_overlap(
                    ents@[k as int],
                    ents@[t],
                )),
        decreases n - j,
    {
        let ej = ents[j];
        if matches!(ej.role, Role::Player | Role::Enemy) {
            if entities_overlap(&ek, &ej) {
                return true;
            }
        }
        j = j + 1;
    }
    false
}

/// Whether some projectile's shape overlaps the target at `k`.
fn scan_projectile_overlap(ents: &Vec<Entity>, k: usize) -> (found: bool)
    requires
        k < ents@.len(),
        ents_ok(ents@),
        pos_bounded(ents@, POS_MOVED_LIMIT as int),
    ensures
        found == exists|i: int|
            0 <= i < ents@.len() && (#[trigger] ents@[i]).role is Projectile && ents_overlap(
                ents@[i],
                ents@[k as int],
            ),
{
    let ek = ents[k];
    let n = ents.len();
    let mut i: usize = 0;
    while i < n
        invariant
            n == ents@.len(),
            k < n,
            ek == ents@[k as int],
            ents_ok(ents@),
            pos_bounded(ents@, POS_MOVED_LIMIT as int),
            0 <= i <= n,
            forall|t: int|
                0 <= t < i ==> !((#[trigger] ents@[t]).role is Projectile && ents_overlap(
                    ents@[t],
                    ents@[k as int],
                )),
        decreases n - i,
    {
        let ei = ents[i];
        if matches!(ei.role, Role::Projectile) {
            if entities_overlap(&ei, &ek) {
                return true;
            }
        }
        i = i + 1;
    }
    false
}

/// Whether the entity at `k` despawns in this stage.
fn is_hit(ents: &Vec<Entity>, k: usize) -> (h: bool)
    requires
        k < ents@.len(),
        ents_ok(ents@),
        pos_bounded(ents@, POS_MOVED_LIMIT as int),
    ensures
        h == hit(ents@, k as int),
{
    match ents[k].role {
        Role::Projectile => scan_target_overlap(ents, k),
        _ => scan_projectile_overlap(ents, k),
    }
}

/// Resolves every projectile against every player and enemy: hit
/// entities despawn, and the score grows by the fixed per-hit amount
/// exactly once per hit projectile.
pub fn handle_projectile_collisions(sim: &mut Simulation)
    requires
        old(sim)@.scalars_ok(),
        ents_ok(old(sim)@.ents),
        pos_bounded(old(sim)@.ents, POS_MOVED_LIMIT as int),
    ensures
        final(sim)@ == combat_stage(old(sim)@),
        ents_ok(final(sim)@.ents),
        pos_bounded(final(sim)@.ents, POS_MOVED_LIMIT as int),
        final(sim)@.scalars_ok(),
{
    let ghost m0 = sim@;
    let n = sim.entities.len();
    let mut out: Vec<Entity> = Vec::new();
    let mut hits: u64 = 0;
    let mut k: usize = 0;
    while k < n
        invariant
            sim@ == m0,
            m0.scalars_ok(),
            ents_ok(m0.ents),
            pos_bounded(m0.ents, POS_MOVED_LIMIT as int),
            n == sim.entities.len(),
            0 <= k <= n,
            out@.len() == survivor_indices_upto(m0.ents, k as int).len(),
            forall|t: int|
                0 <= t < out@.len() ==> #[trigger] out@[t] == m0.ents[survivor_indices_upto(
                    m0.ents,
                    k as int,
                )[t]],
            hits <= k,
            hits as int == hit_proj_count(m0.ents, k as int),
        decreases n - k,
    {
        let h = is_hit(&sim.entities, k);
        if !h {
            out.push(sim.entities[k]);
        }
        if h && matches!(sim.entities[k].role, Role::Projectile) {
            proof {
                assert(proj_hit(m0.ents, k as int));
            }
            hits = hits + 1;
        }
        proof {
            let kk = k as int;
            let prev = survivor_indices_upto(m0.ents, kk);
            let cur = survivor_indices_upto(m0.ents, kk + 1);
            if !hit(m0.ents, kk) {
                assert(cur == prev.push(kk));
            } else {
                assert(cur == prev);
            }
        }
        k = k + 1;
    }
    sim.entities = out;
    let total: u128 = (SCORE_PER_HIT as u128) * (hits as u128);
    let summed: u128 = (sim.score as u128) + total;
    if summed > (u64::MAX as u128) {
        sim.score = u64::MAX;
    } else {
        sim.score = summed as u64;
    }
    proof {
        lemma_survivors_unhit(m0.ents, m0.ents.len() as int);
        assert(sim@.ents =~= combat_stage(m0).ents);
    }
}

/// Every survivor index is below `n` and unhit.
proof fn lemma_survivors_unhit(s: Seq<Entity>, n: int)
    requires
        n <= s.len(),
    ensures
        forall|t: int|
            0 <= t < survivor_indices_upto(s, n).len() ==> {
                let k = #[trigger] survivor_indices_upto(s, n)[t];
                0 <= k < n && !hit(s, k)
            },
    decreases n,
{
    if n > 0 {
        lemma_survivors_unhit(s, n - 1);
        let prev = survivor_indices_upto(s, n - 1);
        let cur = survivor_indices_upto(s, n);
        assert forall|t: int| 0 <= t < cur.len() implies {
            let k = #[trigger] cur[t];
            0 <= k < n && !hit(s, k)
        } by {
            if !hit(s, n - 1) {
                assert(cur == prev.push(n - 1));
                if t < prev.len() {
                    assert(cur[t] == prev[t]);
                } else {
                    assert(cur[t] == n - 1);
                }
            } else {
                assert(cur == prev);
            }
        }
    }
}

/// The per-projectile hit count is never negative.
proof fn lemma_hit_count_nonneg(s: Seq<Entity>, n: int)
    ensures
        hit_proj_count(s, n) >= 0,
    decreases n,
{
    if n > 0 {
        lemma_hit_count_nonneg(s, n - 1);
    }
}

/// A hit projectile is counted.
proof fn lemma_hit_count_positive(s: Seq<Entity>, n: int, i: int)
    requires
        0 <= i < n,
        proj_hit(s, i),
    ensures
        hit_proj_count(s, n) >= 1,
    decreases n,
{
    if i == n - 1 {
        lemma_hit_count_nonneg(s, n - 1);
    } else {
        lemma_hit_count_positive(s, n - 1, i);
    }
}

/// An unhit entity is among the survivors.
pub proof fn lemma_unhit_survives(s: Seq<Entity>, n: int, i: int)
    requires
        0 <= i < n <= s.len(),
        !hit(s, i),
    ensures
        survivor_indices_upto(s, n).contains(i),
    decreases n,
{
    let prev = survivor_indices_upto(s, n - 1);
    let cur = survivor_indices_upto(s, n);
    if i == n - 1 {
        assert(cur == prev.push(i));
        assert(cur[cur.len() - 1] == i);
    } else {
        lemma_unhit_survives(s, n - 1, i);
        let t = choose|t: int| 0 <= t < prev.len() && prev[t] == i;
        if !hit(s, n - 1) {
            assert(cur == prev.push(n - 1));
        }
        assert(cur[t] == i);
    }
}

/// Projectile hit law: a projectile whose shape overlaps a target's
/// shape is not among the stage's survivors, and the stage's score is
/// the old score plus the per-hit amount once per hit projectile — of
/// which it is one.
pub proof fn lemma_projectile_hit(m: SimModel, i: int)
    requires
        0 <= i < m.ents.len(),
        proj_hit(m.ents, i),
    ensures
        forall|t: int|
            0 <= t < survivor_indices_upto(m.ents, m.ents.len() as int).len()
                ==> #[trigger] survivor_indices_upto(m.ents, m.ents.len() as int)[t] != i,
        combat_stage(m).score == sat_add_u64(
            m.score,
            (SCORE_PER_HIT as int) * hit_proj_count(m.ents, m.ents.len() as int),
        ),
        hit_proj_count(m.ents, m.ents.len() as int) >= 1,
{
    lemma_survivors_unhit(m.ents, m.ents.len() as int);
    lemma_hit_count_positive(m.ents, m.ents.len() as int, i);
}

} // verus!
