//! The per-frame stage contract, expressed as one composed transition:
//! the spawners run first, then the integrator, then the two collision
//! resolvers, and the out-of-bounds reaper strictly last.  The ordering
//! is a correctness contract: collisions are evaluated against the
//! frame's new positions, and an entity about to leave the field is
//! still seen by both resolvers before it is reaped.

use vstd::prelude::*;

use crate::combat::{
    combat_stage, handle_projectile_collisions, hit, lemma_unhit_survives, survivor_indices_upto,
};
use crate::lifecycle::{
    enemy_fire, fire_stage, in_extended_bounds, lemma_oob_kept_in_bounds, oob_stage,
    remove_oob_entities, spawn_enemy, spawn_stage,
};
use crate::motion::{apply_velocity, handle_window_collisions, integrate_stage, window_stage};
use crate::world::{SimModel, Simulation};

verus! {

/// The state the two collision resolvers of the third stage work on:
/// everything the spawners and the integrator produced this frame.
pub open spec fn resolvers_state(m: SimModel, x: int) -> SimModel {
    window_stage(integrate_stage(fire_stage(spawn_stage(m, x))))
}

/// The whole frame: spawners, integrator, resolvers, reaper, in the
/// pipeline's fixed stage order.
pub open spec fn frame_model(m: SimModel, x: int) -> SimModel {
    oob_stage(combat_stage(resolvers_state(m, x)))
}

/// Runs one frame of the simulation pipeline.  `spawn_x` is the
/// policy-chosen horizontal offset a spawned enemy would enter at.
pub fn run_frame(sim: &mut Simulation, spawn_x: i64)
    requires
        old(sim)@.wf(),
    ensures
        final(sim)@ == frame_model(old(sim)@, spawn_x as int),
        final(sim)@.wf(),
{
    spawn_enemy(sim, spawn_x);
    enemy_fire(sim);
    apply_velocity(sim);
    handle_window_collisions(sim);
    handle_projectile_collisions(sim);
    remove_oob_entities(sim);
}

/// One identifier per pipeline system, for stating the stage graph.
#[derive(Clone, Copy, PartialEq, Eq, Structural, Debug)]
pub enum SystemId {
    SpawnEnemy,
    EnemyFire,
    ApplyVelocity,
    HandleWindowCollisions,
    HandleProjectileCollisions,
    RemoveOobEntities,
}

/// The stage each system is declared in: the spawners are the first
/// stage and unordered among themselves, the integrator is the strict
/// predecessor of the two resolvers, which are unordered among
/// themselves and strict predecessors of the reaper.
pub open spec fn stage_of(s: SystemId) -> int {
    match s {
        SystemId::SpawnEnemy => 1,
        SystemId::EnemyFire => 1,
        SystemId::ApplyVelocity => 2,
        SystemId::HandleWindowCollisions => 3,
        SystemId::HandleProjectileCollisions => 3,
        SystemId::RemoveOobEntities => 4,
    }
}

/// The linearization of the stage graph that `run_frame` executes.
pub open spec fn frame_order_spec() -> Seq<SystemId> {
    seq![
        SystemId::SpawnEnemy,
        SystemId::EnemyFire,
        SystemId::ApplyVelocity,
        SystemId::HandleWindowCollisions,
        SystemId::HandleProjectileCollisions,
        SystemId::RemoveOobEntities,
    ]
}

/// Hands a scheduler or auditor the execution order of the frame.
pub fn frame_order() -> (order: Vec<SystemId>)
    ensures
        order@ == frame_order_spec(),
{
    let mut order: Vec<SystemId> = Vec::new();
    order.push(SystemId::SpawnEnemy);
    order.push(SystemId::EnemyFire);
    order.push(SystemId::ApplyVelocity);
    order.push(SystemId::HandleWindowCollisions);
    order.push(SystemId::HandleProjectileCollisions);
    order.push(SystemId::RemoveOobEntities);
    proof {
        assert(order@ =~= frame_order_spec());
    }
    order
}

/// The executed order is a valid linearization of the stage graph:
/// every system of an earlier stage runs before every system of a
/// later one, so the integrator precedes both resolvers and the reaper
/// runs strictly last.
pub proof fn lemma_frame_order_respects_stage_graph()
    ensures
        forall|i: int, j: int|
            0 <= i < j < frame_order_spec().len() ==> stage_of(#[trigger] frame_order_spec()[i])
                <= stage_of(#[trigger] frame_order_spec()[j]),
{
}

/// Lifecycle ordering law: an entity that has strayed out of the
/// extended bounds by the time the resolvers run, and that no projectile
/// resolution despawns, is still present in the entity set the third
/// stage hands on — so both resolvers saw it — and is absent from the
/// frame's final entity set: the reaper, and only the reaper, removes
/// it, strictly after the resolvers.
pub proof fn lemma_lifecycle_ordering(m: SimModel, x: int, i: int)
    requires
        0 <= i < resolvers_state(m, x).ents.len(),
        !hit(resolvers_state(m, x).ents, i),
        !in_extended_bounds(resolvers_state(m, x).ents[i], m.window),
    ensures
        combat_stage(resolvers_state(m, x)).ents.contains(resolvers_state(m, x).ents[i]),
        !frame_model(m, x).ents.contains(resolvers_state(m, x).ents[i]),
{
    let s = resolvers_state(m, x).ents;
    let e = s[i];
    let ids = survivor_indices_upto(s, s.len() as int);
    lemma_unhit_survives(s, s.len() as int, i);
    let t = choose|t: int| 0 <= t < ids.len() && ids[t] == i;
    assert(combat_stage(resolvers_state(m, x)).ents[t] == e);

    let after_combat = combat_stage(resolvers_state(m, x));
    let kept = frame_model(m, x).ents;
    lemma_oob_kept_in_bounds(after_combat.ents, m.window, after_combat.ents.len() as int);
    assert forall|k: int| 0 <= k < kept.len() implies kept[k] != e by {
        assert(in_extended_bounds(kept[k], m.window));
    }
    if kept.contains(e) {
        let k = choose|k: int| 0 <= k < kept.len() && kept[k] == e;
        assert(false);
    }
}

} // verus!
