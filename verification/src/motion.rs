//! Motion stages: the velocity integrator that advances every position
//! by `velocity * dt`, and the window-bounds resolver that clamps a
//! shape back inside the window and reflects the perpendicular velocity
//! component, damped by the entity's bounciness.

use vstd::prelude::*;

use crate::units::{
    mag, reflect_vel, reflect_velocity, XYPair, DT_LIMIT, POS_LIMIT, POS_MOVED_LIMIT,
    SHAPE_LIMIT, UNIT_SCALE, VEL_LIMIT, WINDOW_LIMIT,
};
use crate::world::{ent_ok, ents_ok, pos_bounded, Entity, Role, SimModel, Simulation};

verus! {

/// One integration step of one entity: the position advances by
/// `velocity * dt`; nothing else is read or written.
pub open spec fn integrated_entity(e: Entity, dt: int) -> Entity {
    Entity {
        pos: XYPair {
            x: (e.pos.x + e.vel.x * dt) as i64,
            y: (e.pos.y + e.vel.y * dt) as i64,
        },
        ..e
    }
}

/// The integrator's effect on the whole state: every entity advances,
/// every resource is untouched.
pub open spec fn integrate_stage(m: SimModel) -> SimModel {
    SimModel { ents: m.ents.map_values(|e: Entity| integrated_entity(e, m.dt)), ..m }
}

/// Advances every entity's position by its velocity times the frame
/// delta.  For every entity and every admitted `dt >= 0`, the position
/// after is exactly the position before plus `velocity * dt`.
pub fn apply_velocity(sim: &mut Simulation)
    requires
        old(sim)@.scalars_ok(),
        ents_ok(old(sim)@.ents),
        pos_bounded(old(sim)@.ents, POS_LIMIT as int),
    ensures
        final(sim)@ == integrate_stage(old(sim)@),
        final(sim)@.ents.len() == old(sim)@.ents.len(),
        forall|i: int|
            0 <= i < old(sim)@.ents.len() ==> {
                let e = old(sim)@.ents[i];
                &&& (#[trigger] final(sim)@.ents[i]).pos.x == e.pos.x + e.vel.x * old(sim)@.dt
                &&& final(sim)@.ents[i].pos.y == e.pos.y + e.vel.y * old(sim)@.dt
                &&& final(sim)@.ents[i] == (Entity { pos: final(sim)@.ents[i].pos, ..e })
            },
        ents_ok(final(sim)@.ents),
        pos_bounded(final(sim)@.ents, POS_MOVED_LIMIT as int),
        final(sim)@.scalars_ok(),
{
    let ghost m0 = sim@;
    let dt = sim.elapsed_time;
    let n = sim.entities.len();
    let mut out: Vec<Entity> = Vec::new();
    let mut i: usize = 0;
    while i < n
        invariant
            sim@ == m0,
            m0.scalars_ok(),
            ents_ok(m0.ents),
            pos_bounded(m0.ents, POS_LIMIT as int),
            dt == sim.elapsed_time,
            n == sim.entities.len(),
            0 <= i <= n,
            out@.len() == i,
            forall|j: int|
                0 <= j < i ==> #[trigger] out@[j] == integrated_entity(m0.ents[j], dt as int),
        decreases n - i,
    {
        let e = sim.entities[i];
        proof {
            assert(-1_000_000_000_000 <= e.vel.x * dt <= 1_000_000_000_000) by (nonlinear_arith)
                requires
                    -VEL_LIMIT <= e.vel.x <= VEL_LIMIT,
                    0 <= dt <= DT_LIMIT,
            ;
            assert(-1_000_000_000_000 <= e.vel.y * dt <= 1_000_000_000_000) by (nonlinear_arith)
                requires
                    -VEL_LIMIT <= e.vel.y <= VEL_LIMIT,
                    0 <= dt <= DT_LIMIT,
            ;
        }
        let px = e.pos.x + e.vel.x * dt;
        let py = e.pos.y + e.vel.y * dt;
        out.push(Entity { pos: XYPair { x: px, y: py }, ..e });
        i = i + 1;
    }
    sim.entities = out;
    proof {
        assert(sim@.ents =~= integrate_stage(m0).ents);
        assert forall|j: int| 0 <= j < m0.ents.len() implies {
            let e = #[trigger] m0.ents[j];
            &&& -2_000_000_000_000 <= e.pos.x + e.vel.x * (m0.dt) <= 2_000_000_000_000
            &&& -2_000_000_000_000 <= e.pos.y + e.vel.y * (m0.dt) <= 2_000_000_000_000
        } by {
            let e = m0.ents[j];
            assert(-1_000_000_000_000 <= e.vel.x * m0.dt <= 1_000_000_000_000)
                by (nonlinear_arith)
                requires
                    -VEL_LIMIT <= e.vel.x <= VEL_LIMIT,
                    0 <= m0.dt <= DT_LIMIT,
            ;
            assert(-1_000_000_000_000 <= e.vel.y * m0.dt <= 1_000_000_000_000)
                by (nonlinear_arith)
                requires
                    -VEL_LIMIT <= e.vel.y <= VEL_LIMIT,
                    0 <= m0.dt <= DT_LIMIT,
            ;
        }
    }
}

/// Whether entities of this role respond to the window bounds.
/// Projectiles do not bounce: they fly off the field and are reaped by
/// the lifecycle manager after the resolvers had their chance to see
/// them.
pub open spec fn bounces(r: Role) -> bool {
    !(r is Projectile)
}

/// Resolution of one axis against the two edges `0` and `limit`: on
/// overlap the position is clamped so the extent lies fully inside and
/// the velocity component is reflected, damped by `b`.  The two axes of
/// an overlap are resolved independently, each along itself.  A shape
/// wider than the window resolves against the low edge only.
pub open spec fn resolve_axis(p: int, v: int, ext: int, limit: int, b: int) -> (int, int) {
    if p - ext < 0 {
        (ext, reflect_vel(v, b))
    } else if p + ext > limit {
        (limit - ext, reflect_vel(v, b))
    } else {
        (p, v)
    }
}

/// The bounds resolver's effect on one entity.
pub open spec fn resolved_entity(e: Entity, w: XYPair) -> Entity {
    if bounces(e.role) {
        let rx = resolve_axis(
            e.pos.x as int,
            e.vel.x as int,
            e.shape.spec_half_extent_x(),
            w.x as int,
            e.bounciness as int,
        );
        let ry = resolve_axis(
            e.pos.y as int,
            e.vel.y as int,
            e.shape.spec_half_extent_y(),
            w.y as int,
            e.bounciness as int,
        );
        Entity {
            pos: XYPair { x: rx.0 as i64, y: ry.0 as i64 },
            vel: XYPair { x: rx.1 as i64, y: ry.1 as i64 },
            ..e
        }
    } else {
        e
    }
}

/// The bounds resolver's effect on the whole state.
pub open spec fn window_stage(m: SimModel) -> SimModel {
    SimModel { ents: m.ents.map_values(|e: Entity| resolved_entity(e, m.window)), ..m }
}

/// Resolves one axis of one entity.
fn resolve_axis_exec(p: i64, v: i64, ext: i64, limit: i64, b: i64) -> (r: (i64, i64))
    requires
        -POS_MOVED_LIMIT <= p <= POS_MOVED_LIMIT,
        0 <= ext <= SHAPE_LIMIT,
        0 < limit <= WINDOW_LIMIT,
        -VEL_LIMIT <= v <= VEL_LIMIT,
        0 <= b <= UNIT_SCALE,
    ensures
        (r.0 as int, r.1 as int) == resolve_axis(p as int, v as int, ext as int, limit as int, b as int),
        -POS_MOVED_LIMIT <= r.0 <= POS_MOVED_LIMIT,
        mag(r.1 as int) <= mag(v as int),
{
    if p - ext < 0 {
        (ext, reflect_velocity(v, b))
    } else if p + ext > limit {
        (limit - ext, reflect_velocity(v, b))
    } else {
        (p, v)
    }
}

/// Resolves shape-specific overlap of every bouncing entity against the
/// four window edges: the shape is clamped fully inside and the
/// perpendicular velocity component comes out reflected and damped.
pub fn handle_window_collisions(sim: &mut Simulation)
    requires
        old(sim)@.scalars_ok(),
        ents_ok(old(sim)@.ents),
        pos_bounded(old(sim)@.ents, POS_MOVED_LIMIT as int),
    ensures
        final(sim)@ == window_stage(old(sim)@),
        ents_ok(final(sim)@.ents),
        pos_bounded(final(sim)@.ents, POS_MOVED_LIMIT as int),
        final(sim)@.scalars_ok(),
{
    let ghost m0 = sim@;
    let w = sim.window_size;
    let n = sim.entities.len();
    let mut out: Vec<Entity> = Vec::new();
    let mut i: usize = 0;
    while i < n
        invariant
            sim@ == m0,
            m0.scalars_ok(),
            ents_ok(m0.ents),
            pos_bounded(m0.ents, POS_MOVED_LIMIT as int),
            w == sim.window_size,
            n == sim.entities.len(),
            0 <= i <= n,
            out@.len() == i,
            forall|j: int|
                0 <= j < i ==> #[trigger] out@[j] == resolved_entity(m0.ents[j], w),
            forall|j: int| 0 <= j < i ==> ent_ok(#[trigger] out@[j]),
            pos_bounded(out@, POS_MOVED_LIMIT as int),
        decreases n - i,
    {
        let e = sim.entities[i];
        let next = if matches!(e.role, Role::Projectile) {
            e
        } else {
            let rx = resolve_axis_exec(
                e.pos.x,
                e.vel.x,
                e.shape.half_extent_x(),
                w.x,
                e.bounciness,
            );
            let ry = resolve_axis_exec(
                e.pos.y,
                e.vel.y,
                e.shape.half_extent_y(),
                w.y,
                e.bounciness,
            );
            Entity { pos: XYPair { x: rx.0, y: ry.0 }, vel: XYPair { x: rx.1, y: ry.1 }, ..e }
        };
        out.push(next);
        i = i + 1;
    }
    sim.entities = out;
    proof {
        assert(sim@.ents =~= window_stage(m0).ents);
    }
}

/// Bounce reflection at the right boundary: a bouncing circle whose edge
/// has crossed the right window edge (and no other) while moving right
/// resolves to a position flush against that edge and a reflected,
/// damped horizontal velocity.
pub proof fn lemma_bounce_reflection(e: Entity, w: XYPair, v: int)
    requires
        bounces(e.role),
        ent_ok(e),
        e.shape is Circle,
        0 < w.x <= WINDOW_LIMIT,
        e.pos.x - e.shape.spec_half_extent_x() >= 0,
        e.pos.x + e.shape.spec_half_extent_x() > w.x,
        e.vel.x == v,
        v > 0,
    ensures
        resolved_entity(e, w).pos.x == w.x - e.shape.spec_half_extent_x(),
        resolved_entity(e, w).vel.x == reflect_vel(v, e.bounciness as int),
        mag(resolved_entity(e, w).vel.x as int) <= mag(v),
{
    crate::units::lemma_damping_bound(v, e.bounciness as int);
}

} // verus!
