//! Simulation core of a two-paddle ball game.
//!
//! The play field is advanced in fixed, discrete ticks. Each tick maps raw
//! key state into paddle motion, integrates paddle and ball positions,
//! resolves ball-versus-wall and ball-versus-paddle contacts by reflecting
//! the ball's velocity with a combined restitution coefficient, and detects
//! edge-triggered goal crossings. All state is kept in exact rational
//! arithmetic so that a tick is a deterministic, fully specified function of
//! the previous state and the sampled input.

pub mod rational;
pub mod vec3;
pub mod input;
pub mod sim;
pub mod laws;
