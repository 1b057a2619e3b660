//! The per-object behavior contract: the logical keys an object may react
//! to, the per-frame context snapshot, the collision-shape model, the
//! mutable common state every simulated object owns, and the `GameObject`
//! capability trait (weight, bounce damping, collision shape, input
//! reaction) that lets heterogeneous object kinds take part in one frame
//! loop.

use vstd::prelude::*;

use crate::units::{XYPair, SHAPE_LIMIT, UNIT_SCALE};

verus! {

/// Damping factor a boundary reflection applies by default, in
/// sub-units: `8` is `0.8` of the incoming speed.
pub const DEFAULT_COLLISION_DAMPING_FACTOR: i64 = 8;

/// A logical keyboard key the simulation core knows about.  The input
/// collaborator maps device scancodes onto these.
#[derive(Clone, Copy, PartialEq, Eq, Structural, Debug)]
pub enum Key {
    /// Steer left.
    A,
    /// Steer right.
    D,
    /// Jump.
    W,
}

/// The pressed-state snapshot of every logical key, polled once per frame
/// before the pipeline runs.
#[derive(Clone, Copy, PartialEq, Eq, Structural, Debug)]
pub struct KeyStates {
    pub a_down: bool,
    pub d_down: bool,
    pub w_down: bool,
}

impl KeyStates {
    /// The snapshot with no key held.
    pub fn none_down() -> (k: KeyStates)
        ensures
            !k.a_down && !k.d_down && !k.w_down,
    {
        KeyStates { a_down: false, d_down: false, w_down: false }
    }

    /// Whether `key` is currently held.
    pub fn is_down(&self, key: Key) -> (r: bool)
        ensures
            r == self.spec_is_down(key),
    {
        match key {
            Key::A => self.a_down,
            Key::D => self.d_down,
            Key::W => self.w_down,
        }
    }

    pub open spec fn spec_is_down(self, key: Key) -> bool {
        match key {
            Key::A => self.a_down,
            Key::D => self.d_down,
            Key::W => self.w_down,
        }
    }
}

/// Read-only per-frame context snapshot injected into an object's common
/// state before its behavior is evaluated; replaced wholesale each frame.
#[derive(Clone, Copy, PartialEq, Eq, Structural, Debug)]
pub struct ObjectInfo {
    pub window_size: XYPair,
}

/// The collision shape of a simulated object, in sub-units.
#[derive(Clone, Copy, PartialEq, Eq, Structural, Debug)]
pub enum CollisionShape {
    /// A circle of the given radius.
    Circle(i64),
    /// An axis-aligned rectangle of the given width and height.
    Rectangle(i64, i64),
}

impl CollisionShape {
    /// Shape dimensions must be positive and within the machine bound.
    pub open spec fn wf(self) -> bool {
        match self {
            CollisionShape::Circle(r) => 0 < r <= SHAPE_LIMIT,
            CollisionShape::Rectangle(w, h) => 0 < w <= SHAPE_LIMIT && 0 < h <= SHAPE_LIMIT,
        }
    }

    /// Half of the shape's horizontal extent (its radius, or half its
    /// width rounded down), the reach the bounds resolver uses.
    pub open spec fn spec_half_extent_x(self) -> int {
        match self {
            CollisionShape::Circle(r) => r as int,
            CollisionShape::Rectangle(w, _) => (w as int) / 2,
        }
    }

    /// Half of the shape's vertical extent.
    pub open spec fn spec_half_extent_y(self) -> int {
        match self {
            CollisionShape::Circle(r) => r as int,
            CollisionShape::Rectangle(_, h) => (h as int) / 2,
        }
    }

    pub fn half_extent_x(&self) -> (e: i64)
        requires
            self.wf(),
        ensures
            e == self.spec_half_extent_x(),
            0 <= e <= SHAPE_LIMIT,
    {
        match *self {
            CollisionShape::Circle(r) => r,
            CollisionShape::Rectangle(w, _) => w / 2,
        }
    }

    pub fn half_extent_y(&self) -> (e: i64)
        requires
            self.wf(),
        ensures
            e == self.spec_half_extent_y(),
            0 <= e <= SHAPE_LIMIT,
    {
        match *self {
            CollisionShape::Circle(r) => r,
            CollisionShape::Rectangle(_, h) => h / 2,
        }
    }
}

/// The mutable state every simulated object owns exclusively: where it
/// is, how fast it moves, which keys it reacts to, and the frame context
/// last injected into it.
#[derive(Clone)]
pub struct GameObjectCommon {
    /// Top-left corner of the object's bounding box, in sub-units.
    pub coords: XYPair,
    /// Velocity in sub-units per tick.
    pub velocities: XYPair,
    /// The keys this object declared interest in.
    pub interested_keys: Vec<Key>,
    /// The per-frame snapshot, absent until first injected.
    pub object_info: Option<ObjectInfo>,
}

impl Default for GameObjectCommon {
    /// At rest at the origin, interested in no key, with no frame context
    /// seen yet.
    fn default() -> (c: GameObjectCommon)
        ensures
            c.coords.x == 0 && c.coords.y == 0,
            c.velocities.x == 0 && c.velocities.y == 0,
            c.interested_keys@ == Seq::<Key>::empty(),
            c.object_info is None,
    {
        GameObjectCommon {
            coords: XYPair { x: 0, y: 0 },
            velocities: XYPair { x: 0, y: 0 },
            interested_keys: Vec::new(),
            object_info: None,
        }
    }
}

/// The capability contract every simulated object implements so that
/// heterogeneous kinds participate uniformly in the frame loop.
pub trait GameObject: Sized {
    /// The object's common state, as contracts see it.
    spec fn spec_common(&self) -> GameObjectCommon;

    /// Exclusive access to the object's common state; mutating through
    /// the borrow is mutating `spec_common`, and nothing else.
    fn common(&mut self) -> (c: &mut GameObjectCommon)
        ensures
            *c == old(self).spec_common(),
            final(self).spec_common() == *final(c),
    ;

    /// The size of the canvas the rendering collaborator draws this
    /// object on.
    fn canvas_size(&self) -> XYPair;

    /// Relative inertia: how little an impact displaces this object, in
    /// sub-units.
    fn weight_factor(&self) -> i64;

    /// Damping factor a boundary reflection applies to this object's
    /// velocity, in sub-units; within `[0, UNIT_SCALE]`, `0` fully
    /// absorbed, `UNIT_SCALE` perfectly elastic.
    fn bounciness(&self) -> (b: i64)
        ensures
            0 <= b <= UNIT_SCALE,
    {
        DEFAULT_COLLISION_DAMPING_FACTOR
    }

    /// The shape every collision resolver uses for this object.  A
    /// well-formed object only ever carries a shape with positive,
    /// bounded dimensions; construction is where malformed dimensions
    /// are rejected.
    fn collision_shape(&self) -> CollisionShape;

    /// The machine bound the object's common state must respect before
    /// input handling, so one tick of velocity arithmetic cannot
    /// overflow; purely a limit of the integer representation.
    spec fn input_ready(c: GameObjectCommon) -> bool;

    /// Translates the currently pressed keys into velocity mutations.
    /// Input reaction never moves the object or changes what it is
    /// interested in; by default it does nothing at all.
    fn handle_input(&mut self, keys: &KeyStates)
        requires
            Self::input_ready(old(self).spec_common()),
        ensures
            final(self).spec_common().coords == old(self).spec_common().coords,
            final(self).spec_common().interested_keys@ == old(
                self,
            ).spec_common().interested_keys@,
            final(self).spec_common().object_info == old(self).spec_common().object_info,
    {
    }
}

/// Injects the frame context into an object's common state and then lets
/// the object translate the pressed keys into velocity changes: the
/// behavior-evaluation step the frame loop runs per object before the
/// integrator.
pub fn evaluate_object<O: GameObject>(object: &mut O, info: ObjectInfo, keys: &KeyStates)
    requires
        O::input_ready(
            GameObjectCommon { object_info: Some(info), ..old(object).spec_common() },
        ),
    ensures
        final(object).spec_common().coords == old(object).spec_common().coords,
        final(object).spec_common().interested_keys@ == old(
            object,
        ).spec_common().interested_keys@,
        final(object).spec_common().object_info == Some(info),
{
    let c = object.common();
    c.object_info = Some(info);
    object.handle_input(keys);
}

} // verus!
