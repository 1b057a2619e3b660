//! The systems the frame loop runs before the pipeline: writing the
//! frame delta once per frame, and translating the polled key states
//! into velocity changes on the player entity — the same reaction the
//! ball variant declares, applied to the arena's player.

use vstd::prelude::*;

use crate::ball::{KB_X_BOOST, KB_Y_BOOST};
use crate::game_object::KeyStates;
use crate::units::{XYPair, DT_LIMIT, POS_LIMIT, VEL_LIMIT};
use crate::world::{ent_ok, ents_ok, pos_bounded, Entity, SimModel, Simulation};

verus! {

/// Writes the frame delta, exactly once per frame, before the pipeline
/// runs.
pub fn track_time(sim: &mut Simulation, dt: i64)
    requires
        0 <= dt <= DT_LIMIT,
    ensures
        final(sim)@ == (SimModel { dt: dt as int, ..old(sim)@ }),
{
    sim.elapsed_time = dt;
}

/// Whether the entity's lower edge rests on the window floor.
pub open spec fn on_floor(e: Entity, w: XYPair) -> bool {
    e.pos.y + e.shape.spec_half_extent_y() == w.y
}

/// Input reaction of one entity: only the player reacts.  Each held
/// steering key adds its fixed increment to the horizontal velocity,
/// with no clamp or friction; the jump key applies the fixed upward
/// impulse only while the vertical velocity is already negative and the
/// player rests on the window floor.
pub open spec fn input_entity(e: Entity, keys: KeyStates, w: XYPair) -> Entity {
    if e.role is Player {
        let vx = e.vel.x - (
        if keys.a_down {
            KB_X_BOOST as int
        } else {
            0int
        }) + (
        if keys.d_down {
            KB_X_BOOST as int
        } else {
            0int
        });
        let vy = if keys.w_down && e.vel.y < 0 && on_floor(e, w) {
            e.vel.y - KB_Y_BOOST as int
        } else {
            e.vel.y as int
        };
        Entity { vel: XYPair { x: vx as i64, y: vy as i64 }, ..e }
    } else {
        e
    }
}

/// The input system's effect on the whole state.
pub open spec fn input_stage(m: SimModel, keys: KeyStates) -> SimModel {
    SimModel { ents: m.ents.map_values(|e: Entity| input_entity(e, keys, m.window)), ..m }
}

/// Headroom the integer representation forces: one more tick of input
/// must not push a player velocity past the machine bound.
pub open spec fn input_headroom(s: Seq<Entity>) -> bool {
    forall|i: int|
        0 <= i < s.len() && (#[trigger] s[i]).role is Player ==> {
            &&& -(VEL_LIMIT - KB_X_BOOST) <= s[i].vel.x <= VEL_LIMIT - KB_X_BOOST
            &&& -(VEL_LIMIT - KB_Y_BOOST) <= s[i].vel.y
        }
}

/// Applies the polled key states to the player's velocity.
pub fn handle_input(sim: &mut Simulation, keys: &KeyStates)
    requires
        old(sim)@.scalars_ok(),
        ents_ok(old(sim)@.ents),
        pos_bounded(old(sim)@.ents, POS_LIMIT as int),
        input_headroom(old(sim)@.ents),
    ensures
        final(sim)@ == input_stage(old(sim)@, *keys),
        final(sim)@.scalars_ok(),
        ents_ok(final(sim)@.ents),
        pos_bounded(final(sim)@.ents, POS_LIMIT as int),
{
    let ghost m0 = sim@;
    let w = sim.window_size;
    let n = sim.entities.len();
    let mut out: Vec<Entity> = Vec::new();
    let mut i: usize = 0;
    while i < n
        invariant
            sim@ == m0,
            m0.scalars_ok(),
            ents_ok(m0.ents),
            pos_bounded(m0.ents, POS_LIMIT as int),
            input_headroom(m0.ents),
            w == sim.window_size,
            n == sim.entities.len(),
            0 <= i <= n,
            out@.len() == i,
            forall|j: int|
                0 <= j < i ==> #[trigger] out@[j] == input_entity(m0.ents[j], *keys, w),
        decreases n - i,
    {
        let e = sim.entities[i];
        let next = if matches!(e.role, crate::world::Role::Player) {
            let mut vx = e.vel.x;
            if keys.a_down {
                vx = vx - KB_X_BOOST;
            }
            if keys.d_down {
                vx = vx + KB_X_BOOST;
            }
            let mut vy = e.vel.y;
            let floor: i128 = e.pos.y as i128 + e.shape.half_extent_y() as i128;
            if keys.w_down && vy < 0 && floor == w.y as i128 {
                vy = vy - KB_Y_BOOST;
            }
            Entity { vel: XYPair { x: vx, y: vy }, ..e }
        } else {
            e
        };
        out.push(next);
        i = i + 1;
    }
    sim.entities = out;
    proof {
        assert(sim@.ents =~= input_stage(m0, *keys).ents);
    }
}

} // verus!
