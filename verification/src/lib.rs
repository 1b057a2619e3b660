//! Simulation core of an arcade-style shooter.
//!
//! All physical quantities are fixed-point integers: one world unit (a
//! pixel) is `units::UNIT_SCALE` sub-units, so fractional speeds and
//! damping factors are exact integer arithmetic.  The crate provides the
//! spatial primitives, the collision-shape model, the per-object behavior
//! contract, the velocity integrator, the window-bounds and
//! projectile-versus-target collision resolvers, the entity lifecycle
//! manager, and the fixed four-stage frame pipeline that ties them
//! together.

pub mod ball;
pub mod collision;
pub mod combat;
pub mod color;
pub mod game_object;
pub mod input;
pub mod lifecycle;
pub mod pipeline;
pub mod motion;
pub mod units;
pub mod world;
