//! Discrete core of a small arcade simulation: a craft that turns, thrusts,
//! coasts to rest, fires on a cooldown and wraps around the edges of a
//! toroidal play area, with projectiles that are culled once out of bounds.
//!
//! The continuous quantities (angles, velocities, positions) are real numbers
//! held by the caller. This library decides, tick by tick, what happens to
//! them, and keeps the integer state: clock readings, the size of the play
//! area and the ordered projectile collection.
pub mod arena;
pub mod controls;
pub mod firing;
pub mod motion;
pub mod stepper;
