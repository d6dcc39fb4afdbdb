//! Gameplay core of a 2D arcade basketball game.
//!
//! The player charges a throw and releases it; a physics engine propels the
//! ball toward a hoop, and a dual-sensor detector decides when the ball has
//! passed cleanly through the rim. This crate holds the logic that sits on
//! top of the physics engine: the charge-to-launch control model, the
//! basketball lifecycle (spawn, throw, cull, timed respawn), the scoring
//! state machine, and the session score counter. Rendering, input polling,
//! physics integration and host bindings are collaborators that drive these
//! functions each fixed simulation step.
//!
//! Durations are measured in integer milliseconds, positions and speeds in
//! integer thousandths of a pixel (and of a radian for spin), so that every
//! quantity is exact.

pub mod ball;
pub mod charge;
pub mod hoop;
pub mod score;
pub mod session;
