//! Fixed-point spatial primitives: the sub-unit scale, the machine bounds
//! the simulation keeps its quantities inside, the 2-D pair used for
//! positions, velocities and canvas sizes, and the damped reflection that
//! boundary collisions apply to a velocity component.

use vstd::prelude::*;

verus! {

/// Sub-units per world unit (pixel).  A damping factor of `6` therefore
/// means `0.6`, a speed of `2` means `0.2` of a pixel per tick.
pub const UNIT_SCALE: i64 = 10;

/// Largest velocity component magnitude the simulation admits.
pub const VEL_LIMIT: i64 = 1_000_000;

/// Largest frame delta (in ticks) the simulation admits.
pub const DT_LIMIT: i64 = 1_000_000;

/// Largest window extent (in sub-units) the simulation admits.
pub const WINDOW_LIMIT: i64 = 100_000_000;

/// Largest collision-shape extent (in sub-units) the simulation admits.
pub const SHAPE_LIMIT: i64 = 100_000_000;

/// Bound on position components while the simulation is at rest between
/// frames: everything the lifecycle manager keeps lies well inside it.
pub const POS_LIMIT: i64 = 200_000_000;

/// Bound on position components right after one integration step:
/// `POS_LIMIT + VEL_LIMIT * DT_LIMIT` stays below it.
pub const POS_MOVED_LIMIT: i64 = 2_000_000_000_000;

/// How far (in sub-units) a position may lie beyond the window before the
/// lifecycle manager despawns the entity.
pub const OOB_MARGIN: i64 = 500;

/// A two-dimensional fixed-point pair; used for positions, velocities and
/// canvas or window sizes.
#[derive(Clone, Copy, PartialEq, Eq, Structural, Debug)]
pub struct XYPair {
    pub x: i64,
    pub y: i64,
}

impl Default for XYPair {
    /// The origin pair.
    fn default() -> (p: XYPair)
        ensures
            p.x == 0,
            p.y == 0,
    {
        XYPair { x: 0, y: 0 }
    }
}

impl XYPair {
    pub fn new(x: i64, y: i64) -> (p: XYPair)
        ensures
            p.x == x,
            p.y == y,
    {
        XYPair { x, y }
    }
}

/// Magnitude of an integer.
pub open spec fn mag(v: int) -> int {
    if v < 0 {
        -v
    } else {
        v
    }
}

/// The velocity component that comes out of a boundary reflection: the
/// sign flips and the magnitude is scaled by the damping factor `b`
/// (in sub-units, so `b == UNIT_SCALE` is perfectly elastic), rounding
/// the scaled magnitude down.
pub open spec fn reflect_vel(v: int, b: int) -> int {
    if v >= 0 {
        -((v * b) / (UNIT_SCALE as int))
    } else {
        ((-v) * b) / (UNIT_SCALE as int)
    }
}

/// Damping never increases the speed along the reflected axis: for every
/// damping factor in `[0, UNIT_SCALE]` the reflected component is no
/// larger in magnitude than the incoming one.
pub proof fn lemma_damping_bound(v: int, b: int)
    requires
        0 <= b <= UNIT_SCALE,
    ensures
        mag(reflect_vel(v, b)) <= mag(v),
{
    let m = mag(v);
    assert(m * b <= m * (UNIT_SCALE as int)) by (nonlinear_arith)
        requires
            0 <= m,
            0 <= b <= UNIT_SCALE,
    ;
    vstd::arithmetic::div_mod::lemma_div_is_ordered(
        m * b,
        m * (UNIT_SCALE as int),
        UNIT_SCALE as int,
    );
    vstd::arithmetic::div_mod::lemma_div_by_multiple(m, UNIT_SCALE as int);
    assert(0 * b <= m * b) by (nonlinear_arith)
        requires
            0 <= m,
            0 <= b,
    ;
    vstd::arithmetic::div_mod::lemma_div_pos_is_pos(m * b, UNIT_SCALE as int);
}

/// The reflection is exact division semantics on the magnitude, so its
/// result is never of the same sign as a non-zero input.
pub proof fn lemma_reflect_sign(v: int, b: int)
    requires
        0 <= b <= UNIT_SCALE,
    ensures
        v >= 0 ==> reflect_vel(v, b) <= 0,
        v <= 0 ==> reflect_vel(v, b) >= 0,
{
    let m = mag(v);
    assert(0 * b <= m * b) by (nonlinear_arith)
        requires
            0 <= m,
            0 <= b,
    ;
    vstd::arithmetic::div_mod::lemma_div_pos_is_pos(m * b, UNIT_SCALE as int);
}

/// Applies a damped boundary reflection to the velocity component `v`.
pub fn reflect_velocity(v: i64, b: i64) -> (r: i64)
    requires
        -VEL_LIMIT <= v <= VEL_LIMIT,
        0 <= b <= UNIT_SCALE,
    ensures
        r == reflect_vel(v as int, b as int),
        mag(r as int) <= mag(v as int),
{
    proof {
        lemma_damping_bound(v as int, b as int);
        lemma_reflect_sign(v as int, b as int);
    }
    let m: u64 = if v >= 0 {
        v as u64
    } else {
        (-v) as u64
    };
    let q: u64 = (m * (b as u64)) / (UNIT_SCALE as u64);
    if v >= 0 {
        -(q as i64)
    } else {
        q as i64
    }
}

} // verus!
