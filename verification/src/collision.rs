//! Shape-versus-shape overlap: the geometric test the projectile
//! resolver runs pairwise.  Two circles overlap when their center
//! distance is at most the sum of their radii; every other pairing uses
//! the axis-aligned overlap test over the shapes' half-extents.

use vstd::prelude::*;

use crate::game_object::CollisionShape;
use crate::units::{mag, XYPair, POS_MOVED_LIMIT};
use crate::world::Entity;

verus! {

/// Whether shape `sa` centered at `pa` overlaps shape `sb` centered at
/// `pb`.  Touching counts as overlapping.
pub open spec fn shapes_overlap(sa: CollisionShape, pa: XYPair, sb: CollisionShape, pb: XYPair) -> bool {
    let dx = pa.x - pb.x;
    let dy = pa.y - pb.y;
    match (sa, sb) {
        (CollisionShape::Circle(ra), CollisionShape::Circle(rb)) => dx * dx + dy * dy <= (
        ra + rb) * (ra + rb),
        _ => {
            &&& mag(dx) <= sa.spec_half_extent_x() + sb.spec_half_extent_x()
            &&& mag(dy) <= sa.spec_half_extent_y() + sb.spec_half_extent_y()
        },
    }
}

/// Whether the collision shapes of two entities overlap.
pub open spec fn ents_overlap(a: Entity, b: Entity) -> bool {
    shapes_overlap(a.shape, a.pos, b.shape, b.pos)
}

/// Runs the overlap test on two entities.
pub fn entities_overlap(a: &Entity, b: &Entity) -> (r: bool)
    requires
        a.shape.wf(),
        b.shape.wf(),
        -POS_MOVED_LIMIT <= a.pos.x <= POS_MOVED_LIMIT,
        -POS_MOVED_LIMIT <= a.pos.y <= POS_MOVED_LIMIT,
        -POS_MOVED_LIMIT <= b.pos.x <= POS_MOVED_LIMIT,
        -POS_MOVED_LIMIT <= b.pos.y <= POS_MOVED_LIMIT,
    ensures
        r == ents_overlap(*a, *b),
{
    let dx: i128 = a.pos.x as i128 - b.pos.x as i128;
    let dy: i128 = a.pos.y as i128 - b.pos.y as i128;
    match (a.shape, b.shape) {
        (CollisionShape::Circle(ra), CollisionShape::Circle(rb)) => {
            let rsum: i128 = ra as i128 + rb as i128;
            proof {
                assert(0 <= (dx as int) * (dx as int) < 0x1_0000_0000_0000_0000_0000_0000int)
                    by (nonlinear_arith)
                    requires
                        -4_000_000_000_001 <= dx as int <= 4_000_000_000_001,
                ;
                assert(0 <= (dy as int) * (dy as int) < 0x1_0000_0000_0000_0000_0000_0000int)
                    by (nonlinear_arith)
                    requires
                        -4_000_000_000_001 <= dy as int <= 4_000_000_000_001,
                ;
                assert(0 <= (rsum as int) * (rsum as int) < 0x1_0000_0000_0000_0000_0000_0000int)
                    by (nonlinear_arith)
                    requires
                        0 <= rsum as int <= 400_000_001,
                ;
            }
            dx * dx + dy * dy <= rsum * rsum
        },
        _ => {
            let adx: i128 = if dx < 0 {
                -dx
            } else {
                dx
            };
            let ady: i128 = if dy < 0 {
                -dy
            } else {
                dy
            };
            let ex: i128 = a.shape.half_extent_x() as i128 + b.shape.half_extent_x() as i128;
            let ey: i128 = a.shape.half_extent_y() as i128 + b.shape.half_extent_y() as i128;
            adx <= ex && ady <= ey
        },
    }
}

} // verus!
