//! The bouncy-ball object variant: a circle that steers left and right
//! while keys are held, and jumps off the window floor under a quirky
//! pre-condition the product keeps on purpose.

use vstd::prelude::*;

use crate::color::{hex_to_color, spec_hex_color, valid_hex_color, Color};
use crate::game_object::{
    CollisionShape, GameObject, GameObjectCommon, Key, KeyStates,
};
use crate::units::{XYPair, SHAPE_LIMIT};

verus! {

/// Horizontal velocity gained per frame while a steering key is held, in
/// sub-units per tick: `0.2` of a pixel.  No clamp or friction is ever
/// applied, so it accumulates without bound while held.
pub const KB_X_BOOST: i64 = 2;

/// Magnitude of the upward jump impulse, in sub-units per tick: `16.0`
/// pixels.
pub const KB_Y_BOOST: i64 = 160;

/// Machine bound on a ball's coordinates and velocities, far outside any
/// playfield: input handling needs one tick of arithmetic headroom.
pub const BALL_STATE_LIMIT: i64 = 0x4000_0000_0000_0000;

pub struct Ball {
    pub radius: i64,
    pub diameter: i64,
    pub color: Color,
    pub common: GameObjectCommon,
}

impl Ball {
    /// Whether the ball currently rests on the window floor: its lower
    /// edge touches the bottom of the window last injected into it.
    pub open spec fn grounded(self) -> bool {
        match self.common.object_info {
            Some(info) => self.common.coords.y + self.diameter == info.window_size.y,
            None => false,
        }
    }

    /// A ball of the given radius at `coords`, colored by the `#rrggbb`
    /// literal, at rest and interested in the steering and jump keys.
    /// Malformed dimensions and colors are rejected here, at
    /// construction, never later in the pipeline.
    pub fn new(coords: XYPair, radius: i64, color_hex: &str) -> (b: Ball)
        requires
            0 < radius,
            2 * radius <= SHAPE_LIMIT,
            valid_hex_color(color_hex@),
        ensures
            b.radius == radius,
            b.diameter == 2 * radius,
            b.color == spec_hex_color(color_hex@),
            b.common.coords == coords,
            b.common.velocities == (XYPair { x: 0, y: 0 }),
            b.common.interested_keys@ == seq![Key::A, Key::D, Key::W],
            b.common.object_info is None,
    {
        let diameter = 2 * radius;
        let color = hex_to_color(color_hex).unwrap();
        let mut interested_keys: Vec<Key> = Vec::new();
        interested_keys.push(Key::A);
        interested_keys.push(Key::D);
        interested_keys.push(Key::W);
        proof {
            assert(interested_keys@ =~= seq![Key::A, Key::D, Key::W]);
        }
        let common = GameObjectCommon {
            coords,
            velocities: XYPair { x: 0, y: 0 },
            interested_keys,
            object_info: None,
        };
        Ball { radius, diameter, color, common }
    }
}

impl GameObject for Ball {
    open spec fn spec_common(&self) -> GameObjectCommon {
        self.common
    }

    open spec fn input_ready(c: GameObjectCommon) -> bool {
        &&& -BALL_STATE_LIMIT <= c.velocities.x <= BALL_STATE_LIMIT
        &&& -BALL_STATE_LIMIT <= c.velocities.y <= BALL_STATE_LIMIT
    }

    fn common(&mut self) -> (c: &mut GameObjectCommon)
        ensures
            final(self).radius == old(self).radius,
            final(self).diameter == old(self).diameter,
            final(self).color == old(self).color,
    {
        &mut self.common
    }

    fn canvas_size(&self) -> (s: XYPair)
        ensures
            s == (XYPair { x: self.diameter, y: self.diameter }),
    {
        XYPair { x: self.diameter, y: self.diameter }
    }

    /// The ball's relative inertia, `0.8` in sub-units.
    fn weight_factor(&self) -> (w: i64)
        ensures
            w == 8,
    {
        8
    }

    /// Bouncier than the default damping: `0.6` of the speed survives a
    /// reflection.
    fn bounciness(&self) -> (b: i64)
        ensures
            b == 6,
    {
        6
    }

    fn collision_shape(&self) -> (s: CollisionShape)
        ensures
            s == CollisionShape::Circle(self.radius),
    {
        CollisionShape::Circle(self.radius)
    }

    /// Steering: each held steering key adds its fixed per-frame
    /// increment to the horizontal velocity, with no clamp.  Jump: the
    /// held jump key applies the fixed upward impulse, but only when the
    /// vertical velocity is already negative and the ball touches the
    /// window floor — a quirk kept exactly as the product defines it.
    fn handle_input(&mut self, keys: &KeyStates)
        ensures
            final(self).common.velocities.x == old(self).common.velocities.x - (
            if keys.a_down {
                KB_X_BOOST as int
            } else {
                0int
            }) + (
            if keys.d_down {
                KB_X_BOOST as int
            } else {
                0int
            }),
            final(self).common.velocities.y == old(self).common.velocities.y - (
            if keys.w_down && old(self).common.velocities.y < 0 && old(self).grounded() {
                KB_Y_BOOST as int
            } else {
                0int
            }),
            final(self).radius == old(self).radius,
            final(self).diameter == old(self).diameter,
            final(self).color == old(self).color,
    {
        if keys.a_down {
            self.common.velocities.x = self.common.velocities.x - KB_X_BOOST;
        }
        if keys.d_down {
            self.common.velocities.x = self.common.velocities.x + KB_X_BOOST;
        }
        if keys.w_down {
            if let Some(info) = self.common.object_info {
                let lower_edge: i128 = self.common.coords.y as i128 + self.diameter as i128;
                if self.common.velocities.y < 0 && lower_edge == info.window_size.y as i128 {
                    self.common.velocities.y = self.common.velocities.y - KB_Y_BOOST;
                }
            }
        }
    }
}

} // verus!
