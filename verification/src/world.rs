//! The simulation's data store: entities (role tag plus position,
//! velocity, collision shape and drawable components) held by stable
//! index in one arena, and the process-wide resources (window size,
//! frame delta, projectile speed, score) gathered into one state struct
//! that every pipeline stage receives explicitly.

use vstd::prelude::*;

use crate::game_object::{CollisionShape, DEFAULT_COLLISION_DAMPING_FACTOR};
use crate::units::{XYPair, DT_LIMIT, POS_LIMIT, UNIT_SCALE, VEL_LIMIT, WINDOW_LIMIT};

verus! {

/// Width of the player's rectangle, in sub-units.
pub const PLAYER_WIDTH: i64 = 400;

/// Height of the player's rectangle, in sub-units.
pub const PLAYER_HEIGHT: i64 = 400;

/// Width of an enemy's rectangle, in sub-units.
pub const ENEMY_WIDTH: i64 = 400;

/// Height of an enemy's rectangle, in sub-units.
pub const ENEMY_HEIGHT: i64 = 400;

/// Downward drift a freshly spawned enemy starts with, in sub-units per
/// tick.
pub const ENEMY_DESCENT_SPEED: i64 = 10;

/// Radius of a projectile's circle, in sub-units.
pub const PROJECTILE_RADIUS: i64 = 50;

/// Ticks between two enemy spawns.
pub const SPAWN_INTERVAL: i64 = 2_000;

/// Ticks between two enemy volleys.
pub const FIRE_INTERVAL: i64 = 3_000;

/// What one projectile hit adds to the score.
pub const SCORE_PER_HIT: u64 = 10;

/// The role an entity plays in the game rules.
#[derive(Clone, Copy, PartialEq, Eq, Structural, Debug)]
pub enum Role {
    Player,
    Enemy,
    Projectile,
}

/// What kind of picture the rendering collaborator should draw.
#[derive(Clone, Copy, PartialEq, Eq, Structural, Debug)]
pub enum DrawableKind {
    Player,
    Enemy,
    Projectile,
}

/// The descriptor the rendering collaborator consumes per entity.
#[derive(Clone, Copy, PartialEq, Eq, Structural, Debug)]
pub struct Drawable {
    pub canvas_size: XYPair,
    pub kind: DrawableKind,
}

/// One simulated entity.  `pos` is the center of its collision shape in
/// sub-units; `vel` is in sub-units per tick.
#[derive(Clone, Copy, PartialEq, Eq, Structural, Debug)]
pub struct Entity {
    pub role: Role,
    pub pos: XYPair,
    pub vel: XYPair,
    pub shape: CollisionShape,
    pub bounciness: i64,
    pub drawable: Drawable,
}

/// Per-entity well-formedness: a valid shape, a velocity inside the
/// machine bound, and a damping factor inside `[0, UNIT_SCALE]`.
pub open spec fn ent_ok(e: Entity) -> bool {
    &&& e.shape.wf()
    &&& -VEL_LIMIT <= e.vel.x <= VEL_LIMIT
    &&& -VEL_LIMIT <= e.vel.y <= VEL_LIMIT
    &&& 0 <= e.bounciness <= UNIT_SCALE
}

pub open spec fn ents_ok(s: Seq<Entity>) -> bool {
    forall|i: int| 0 <= i < s.len() ==> ent_ok(#[trigger] s[i])
}

/// Every position component lies within `b` of the origin.
pub open spec fn pos_bounded(s: Seq<Entity>, b: int) -> bool {
    forall|i: int|
        0 <= i < s.len() ==> {
            &&& -b <= #[trigger] s[i].pos.x <= b
            &&& -b <= s[i].pos.y <= b
        }
}

/// The mathematical image of a `Simulation`, over which the stage
/// transition functions and the pipeline laws are stated.
pub ghost struct SimModel {
    pub ents: Seq<Entity>,
    pub window: XYPair,
    pub dt: int,
    pub speed: int,
    pub score: int,
    pub spawn_timer: int,
    pub fire_timer: int,
}

/// The whole simulation state one frame works on: the entity arena and
/// the shared resources, each mutated by exactly one stage per frame.
pub struct Simulation {
    pub entities: Vec<Entity>,
    /// Immutable after startup.
    pub window_size: XYPair,
    /// Frame delta in ticks, written once per frame before the pipeline
    /// runs.
    pub elapsed_time: i64,
    /// Speed given to a fired projectile, in sub-units per tick.
    pub projectile_speed: i64,
    /// Mutated only by the projectile resolver.
    pub score: u64,
    /// Ticks accumulated toward the next enemy spawn.
    pub spawn_timer: i64,
    /// Ticks accumulated toward the next enemy volley.
    pub fire_timer: i64,
}

impl View for Simulation {
    type V = SimModel;

    open spec fn view(&self) -> SimModel {
        SimModel {
            ents: self.entities@,
            window: self.window_size,
            dt: self.elapsed_time as int,
            speed: self.projectile_speed as int,
            score: self.score as int,
            spawn_timer: self.spawn_timer as int,
            fire_timer: self.fire_timer as int,
        }
    }
}

impl SimModel {
    /// Resource well-formedness: a positive bounded window, a
    /// non-negative bounded frame delta, a positive bounded projectile
    /// speed, timers inside their cadence intervals.
    pub open spec fn scalars_ok(self) -> bool {
        &&& 0 < self.window.x <= WINDOW_LIMIT
        &&& 0 < self.window.y <= WINDOW_LIMIT
        &&& 0 <= self.dt <= DT_LIMIT
        &&& 0 < self.speed <= VEL_LIMIT
        &&& 0 <= self.score <= u64::MAX
        &&& 0 <= self.spawn_timer < SPAWN_INTERVAL
        &&& 0 <= self.fire_timer < FIRE_INTERVAL
    }

    /// The invariant the simulation re-establishes at every frame
    /// boundary.
    pub open spec fn wf(self) -> bool {
        &&& self.scalars_ok()
        &&& ents_ok(self.ents)
        &&& pos_bounded(self.ents, POS_LIMIT as int)
    }
}

/// The player entity spawned at startup: a resting rectangle under the
/// default damping factor.
pub open spec fn player_entity(pos: XYPair) -> Entity {
    Entity {
        role: Role::Player,
        pos,
        vel: XYPair { x: 0, y: 0 },
        shape: CollisionShape::Rectangle(PLAYER_WIDTH, PLAYER_HEIGHT),
        bounciness: DEFAULT_COLLISION_DAMPING_FACTOR,
        drawable: Drawable {
            canvas_size: XYPair { x: PLAYER_WIDTH, y: PLAYER_HEIGHT },
            kind: DrawableKind::Player,
        },
    }
}

impl Simulation {
    /// An empty world with the startup configuration installed.
    pub fn new(window_size: XYPair, projectile_speed: i64) -> (s: Simulation)
        requires
            0 < window_size.x <= WINDOW_LIMIT,
            0 < window_size.y <= WINDOW_LIMIT,
            0 < projectile_speed <= VEL_LIMIT,
        ensures
            s@.wf(),
            s@.ents == Seq::<Entity>::empty(),
            s@.window == window_size,
            s@.dt == 0,
            s@.speed == projectile_speed,
            s@.score == 0,
            s@.spawn_timer == 0,
            s@.fire_timer == 0,
    {
        Simulation {
            entities: Vec::new(),
            window_size,
            elapsed_time: 0,
            projectile_speed,
            score: 0,
            spawn_timer: 0,
            fire_timer: 0,
        }
    }

    /// Puts the player into the arena at `pos`.
    pub fn spawn_player(&mut self, pos: XYPair)
        requires
            -POS_LIMIT <= pos.x <= POS_LIMIT,
            -POS_LIMIT <= pos.y <= POS_LIMIT,
        ensures
            final(self)@ == (SimModel {
                ents: old(self)@.ents.push(player_entity(pos)),
                ..old(self)@
            }),
    {
        self.entities.push(
            Entity {
                role: Role::Player,
                pos,
                vel: XYPair { x: 0, y: 0 },
                shape: CollisionShape::Rectangle(PLAYER_WIDTH, PLAYER_HEIGHT),
                bounciness: DEFAULT_COLLISION_DAMPING_FACTOR,
                drawable: Drawable {
                    canvas_size: XYPair { x: PLAYER_WIDTH, y: PLAYER_HEIGHT },
                    kind: DrawableKind::Player,
                },
            },
        );
    }
}

} // verus!
