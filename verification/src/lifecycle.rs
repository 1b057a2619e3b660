//! The entity lifecycle manager: cadence-driven enemy spawning, enemy
//! fire toward the player, and the despawn of entities that strayed
//! beyond the window bounds plus a margin.  Reaping runs last in the
//! frame, so the collision resolvers always saw the entity's in-bounds
//! state first.

use vstd::prelude::*;

use crate::game_object::{CollisionShape, DEFAULT_COLLISION_DAMPING_FACTOR};
use crate::units::{XYPair, OOB_MARGIN, POS_LIMIT, POS_MOVED_LIMIT};
use crate::world::{
    ent_ok, ents_ok, pos_bounded, Drawable, DrawableKind, Entity, Role, SimModel, Simulation,
    ENEMY_DESCENT_SPEED, ENEMY_HEIGHT, ENEMY_WIDTH, FIRE_INTERVAL, PROJECTILE_RADIUS,
    SPAWN_INTERVAL,
};

verus! {

/// The horizontal center a spawn request at `x` is clamped to, so the
/// enemy's rectangle lies fully inside a window of width `w`.
pub open spec fn clamp_spawn_x(x: int, w: int) -> int {
    let half = (ENEMY_WIDTH as int) / 2;
    if x < half {
        half
    } else if x > w - half {
        w - half
    } else {
        x
    }
}

/// The enemy a spawn request at `x` creates: flush below the top edge,
/// drifting slowly downward, under the default damping factor.
pub open spec fn enemy_entity(x: int, w: XYPair) -> Entity {
    Entity {
        role: Role::Enemy,
        pos: XYPair { x: clamp_spawn_x(x, w.x as int) as i64, y: (ENEMY_HEIGHT as int / 2) as i64 },
        vel: XYPair { x: 0, y: ENEMY_DESCENT_SPEED },
        shape: CollisionShape::Rectangle(ENEMY_WIDTH, ENEMY_HEIGHT),
        bounciness: DEFAULT_COLLISION_DAMPING_FACTOR,
        drawable: Drawable {
            canvas_size: XYPair { x: ENEMY_WIDTH, y: ENEMY_HEIGHT },
            kind: DrawableKind::Enemy,
        },
    }
}

/// The spawner's effect: once its timer has accumulated a full cadence
/// interval it resets and one enemy enters at the requested horizontal
/// offset; otherwise only the timer advances.
pub open spec fn spawn_stage(m: SimModel, x: int) -> SimModel {
    if m.spawn_timer + m.dt >= SPAWN_INTERVAL {
        SimModel { ents: m.ents.push(enemy_entity(x, m.window)), spawn_timer: 0, ..m }
    } else {
        SimModel { spawn_timer: m.spawn_timer + m.dt, ..m }
    }
}

/// Creates an enemy on the spawn cadence.  The horizontal offset `x` is
/// policy-determined by the caller (for instance randomized) and is
/// clamped so the new enemy lies fully inside the window.
pub fn spawn_enemy(sim: &mut Simulation, x: i64)
    requires
        old(sim)@.scalars_ok(),
        ents_ok(old(sim)@.ents),
        pos_bounded(old(sim)@.ents, POS_LIMIT as int),
    ensures
        final(sim)@ == spawn_stage(old(sim)@, x as int),
        final(sim)@.scalars_ok(),
        ents_ok(final(sim)@.ents),
        pos_bounded(final(sim)@.ents, POS_LIMIT as int),
{
    let dt = sim.elapsed_time;
    if sim.spawn_timer + dt >= SPAWN_INTERVAL {
        sim.spawn_timer = 0;
        let half = ENEMY_WIDTH / 2;
        let cx = if x < half {
            half
        } else if x > sim.window_size.x - half {
            sim.window_size.x - half
        } else {
            x
        };
        sim.entities.push(
            Entity {
                role: Role::Enemy,
                pos: XYPair { x: cx, y: ENEMY_HEIGHT / 2 },
                vel: XYPair { x: 0, y: ENEMY_DESCENT_SPEED },
                shape: CollisionShape::Rectangle(ENEMY_WIDTH, ENEMY_HEIGHT),
                bounciness: DEFAULT_COLLISION_DAMPING_FACTOR,
                drawable: Drawable {
                    canvas_size: XYPair { x: ENEMY_WIDTH, y: ENEMY_HEIGHT },
                    kind: DrawableKind::Enemy,
                },
            },
        );
    } else {
        sim.spawn_timer = sim.spawn_timer + dt;
    }
}

/// The first index holding the player, from `i` on; `-1` where there is
/// none.
pub open spec fn first_player_from(s: Seq<Entity>, i: int) -> int
    decreases s.len() - i,
{
    if i < 0 || i >= s.len() {
        -1
    } else if s[i].role is Player {
        i
    } else {
        first_player_from(s, i + 1)
    }
}

/// The projectile an enemy at `e` fires: it starts at the enemy's
/// position and moves at the configured speed, vertically toward the
/// player's side of the enemy.
pub open spec fn projectile_from(e: Entity, speed: int, player_y: int) -> Entity {
    Entity {
        role: Role::Projectile,
        pos: e.pos,
        vel: XYPair {
            x: 0,
            y: if player_y >= e.pos.y {
                speed as i64
            } else {
                (-speed) as i64
            },
        },
        shape: CollisionShape::Circle(PROJECTILE_RADIUS),
        bounciness: DEFAULT_COLLISION_DAMPING_FACTOR,
        drawable: Drawable {
            canvas_size: XYPair {
                x: (2 * PROJECTILE_RADIUS) as i64,
                y: (2 * PROJECTILE_RADIUS) as i64,
            },
            kind: DrawableKind::Projectile,
        },
    }
}

/// One projectile per enemy below `n`, in arena order.
pub open spec fn volley_upto(s: Seq<Entity>, n: int, speed: int, player_y: int) -> Seq<Entity>
    decreases n,
{
    if n <= 0 {
        Seq::empty()
    } else {
        let rest = volley_upto(s, n - 1, speed, player_y);
        if s[n - 1].role is Enemy {
            rest.push(projectile_from(s[n - 1], speed, player_y))
        } else {
            rest
        }
    }
}

/// The firing system's effect: once its timer has accumulated a full
/// cadence interval it resets and every enemy fires one projectile
/// toward the player; with no player in the arena nothing is fired.
/// Off cadence only the timer advances.
pub open spec fn fire_stage(m: SimModel) -> SimModel {
    if m.fire_timer + m.dt >= FIRE_INTERVAL {
        let pi = first_player_from(m.ents, 0);
        if pi >= 0 {
            SimModel {
                ents: m.ents + volley_upto(m.ents, m.ents.len() as int, m.speed, m.ents[pi].pos.y as int),
                fire_timer: 0,
                ..m
            }
        } else {
            SimModel { fire_timer: 0, ..m }
        }
    } else {
        SimModel { fire_timer: m.fire_timer + m.dt, ..m }
    }
}

/// Searching from an all-non-player prefix finds the same player.
proof fn lemma_first_player_skip(s: Seq<Entity>, j: int)
    requires
        0 <= j <= s.len(),
        forall|t: int| 0 <= t < j ==> !((#[trigger] s[t]).role is Player),
    ensures
        first_player_from(s, 0) == first_player_from(s, j),
    decreases j,
{
    if j > 0 {
        lemma_first_player_skip(s, j - 1);
        assert(first_player_from(s, j - 1) == first_player_from(s, j));
    }
}

/// Finds the player's arena index, where there is one.
fn find_player(ents: &Vec<Entity>) -> (r: Option<usize>)
    ensures
        r is Some ==> r->0 < ents@.len() && first_player_from(ents@, 0) == r->0 as int,
        r is None ==> first_player_from(ents@, 0) == -1,
{
    let n = ents.len();
    let mut i: usize = 0;
    while i < n
        invariant
            n == ents@.len(),
            0 <= i <= n,
            forall|t: int| 0 <= t < i ==> !((#[trigger] ents@[t]).role is Player),
        decreases n - i,
    {
        if matches!(ents[i].role, Role::Player) {
            proof {
                lemma_first_player_skip(ents@, i as int);
            }
            return Some(i);
        }
        i = i + 1;
    }
    proof {
        lemma_first_player_skip(ents@, n as int);
    }
    None
}

/// Fires one projectile from every enemy toward the player, on the fire
/// cadence.
pub fn enemy_fire(sim: &mut Simulation)
    requires
        old(sim)@.scalars_ok(),
        ents_ok(old(sim)@.ents),
        pos_bounded(old(sim)@.ents, POS_LIMIT as int),
    ensures
        final(sim)@ == fire_stage(old(sim)@),
        final(sim)@.scalars_ok(),
        ents_ok(final(sim)@.ents),
        pos_bounded(final(sim)@.ents, POS_LIMIT as int),
{
    let ghost m0 = sim@;
    let dt = sim.elapsed_time;
    if sim.fire_timer + dt >= FIRE_INTERVAL {
        sim.fire_timer = 0;
        let n = sim.entities.len();
        match find_player(&sim.entities) {
            None => {
            },
            Some(pi) => {
                let player_y = sim.entities[pi].pos.y;
                let speed = sim.projectile_speed;
                proof {
                    assert(-POS_LIMIT <= m0.ents[pi as int].pos.x <= POS_LIMIT);
                    assert(sim.entities@ =~= m0.ents + volley_upto(
                        m0.ents,
                        0,
                        speed as int,
                        player_y as int,
                    ));
                }
                let mut j: usize = 0;
                while j < n
                    invariant
                        n == m0.ents.len(),
                        0 <= j <= n,
                        sim.entities@ == m0.ents + volley_upto(
                            m0.ents,
                            j as int,
                            speed as int,
                            player_y as int,
                        ),
                        sim.window_size == m0.window,
                        sim.elapsed_time as int == m0.dt,
                        sim.projectile_speed as int == m0.speed,
                        sim.score as int == m0.score,
                        sim.spawn_timer as int == m0.spawn_timer,
                        sim.fire_timer == 0,
                        ents_ok(m0.ents),
                        pos_bounded(m0.ents, POS_LIMIT as int),
                        m0.scalars_ok(),
                        speed == m0.speed,
                        -POS_LIMIT <= player_y <= POS_LIMIT,
                        ents_ok(sim.entities@),
                        pos_bounded(sim.entities@, POS_LIMIT as int),
                    decreases n - j,
                {
                    let e = sim.entities[j];
                    if matches!(e.role, Role::Enemy) {
                        let vy = if player_y >= e.pos.y {
                            speed
                        } else {
                            -speed
                        };
                        sim.entities.push(
                            Entity {
                                role: Role::Projectile,
                                pos: e.pos,
                                vel: XYPair { x: 0, y: vy },
                                shape: CollisionShape::Circle(PROJECTILE_RADIUS),
                                bounciness: DEFAULT_COLLISION_DAMPING_FACTOR,
                                drawable: Drawable {
                                    canvas_size: XYPair {
                                        x: 2 * PROJECTILE_RADIUS,
                                        y: 2 * PROJECTILE_RADIUS,
                                    },
                                    kind: DrawableKind::Projectile,
                                },
                            },
                        );
                        proof {
                            assert(sim.entities@ =~= m0.ents + volley_upto(
                                m0.ents,
                                j as int + 1,
                                speed as int,
                                player_y as int,
                            ));
                        }
                    } else {
                        proof {
                            assert(sim.entities@ =~= m0.ents + volley_upto(
                                m0.ents,
                                j as int + 1,
                                speed as int,
                                player_y as int,
                            ));
                        }
                    }
                    j = j + 1;
                }
            },
        }
    } else {
        sim.fire_timer = sim.fire_timer + dt;
    }
}

/// Whether an entity's position still lies inside the window bounds
/// extended by the despawn margin.
pub open spec fn in_extended_bounds(e: Entity, w: XYPair) -> bool {
    &&& -OOB_MARGIN <= e.pos.x <= w.x + OOB_MARGIN
    &&& -OOB_MARGIN <= e.pos.y <= w.y + OOB_MARGIN
}

/// The entities below `n` whose positions are still within the extended
/// bounds, in order.
pub open spec fn kept_in_bounds_upto(s: Seq<Entity>, w: XYPair, n: int) -> Seq<Entity>
    decreases n,
{
    if n <= 0 {
        Seq::empty()
    } else {
        let rest = kept_in_bounds_upto(s, w, n - 1);
        if in_extended_bounds(s[n - 1], w) {
            rest.push(s[n - 1])
        } else {
            rest
        }
    }
}

/// The reaper's effect: out-of-bounds entities leave, everything else is
/// untouched.
pub open spec fn oob_stage(m: SimModel) -> SimModel {
    SimModel { ents: kept_in_bounds_upto(m.ents, m.window, m.ents.len() as int), ..m }
}

/// Everything the reaper keeps lies within the extended bounds.
pub proof fn lemma_oob_kept_in_bounds(s: Seq<Entity>, w: XYPair, n: int)
    ensures
        forall|t: int|
            0 <= t < kept_in_bounds_upto(s, w, n).len() ==> in_extended_bounds(
                #[trigger] kept_in_bounds_upto(s, w, n)[t],
                w,
            ),
    decreases n,
{
    if n > 0 {
        lemma_oob_kept_in_bounds(s, w, n - 1);
        let prev = kept_in_bounds_upto(s, w, n - 1);
        let cur = kept_in_bounds_upto(s, w, n);
        assert forall|t: int| 0 <= t < cur.len() implies in_extended_bounds(cur[t], w) by {
            if in_extended_bounds(s[n - 1], w) {
                assert(cur == prev.push(s[n - 1]));
                if t < prev.len() {
                    assert(cur[t] == prev[t]);
                } else {
                    assert(cur[t] == s[n - 1]);
                }
            } else {
                assert(cur == prev);
            }
        }
    }
}

/// Despawns every entity whose position lies outside the window bounds
/// extended by the margin.  Runs last in the frame.
pub fn remove_oob_entities(sim: &mut Simulation)
    requires
        old(sim)@.scalars_ok(),
        ents_ok(old(sim)@.ents),
        pos_bounded(old(sim)@.ents, POS_MOVED_LIMIT as int),
    ensures
        final(sim)@ == oob_stage(old(sim)@),
        final(sim)@.scalars_ok(),
        ents_ok(final(sim)@.ents),
        pos_bounded(final(sim)@.ents, POS_LIMIT as int),
{
    let ghost m0 = sim@;
    let w = sim.window_size;
    let n = sim.entities.len();
    let mut out: Vec<Entity> = Vec::new();
    let mut i: usize = 0;
    while i < n
        invariant
            sim@ == m0,
            m0.scalars_ok(),
            ents_ok(m0.ents),
            pos_bounded(m0.ents, POS_MOVED_LIMIT as int),
            w == sim.window_size,
            n == sim.entities.len(),
            0 <= i <= n,
            out@ == kept_in_bounds_upto(m0.ents, w, i as int),
            ents_ok(out@),
            pos_bounded(out@, POS_LIMIT as int),
        decreases n - i,
    {
        let e = sim.entities[i];
        if -OOB_MARGIN <= e.pos.x && e.pos.x <= w.x + OOB_MARGIN && -OOB_MARGIN <= e.pos.y
            && e.pos.y <= w.y + OOB_MARGIN {
            out.push(e);
        }
        proof {
            assert(out@ =~= kept_in_bounds_upto(m0.ents, w, i as int + 1));
        }
        i = i + 1;
    }
    sim.entities = out;
}

} // verus!
