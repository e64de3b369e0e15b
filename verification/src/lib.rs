//! Deterministic core of an asteroid-arena simulation: ship, asteroids that
//! split on impact, missiles, and the fixed-step tick that makes them meet.
pub mod fixed;
pub mod geometry;
pub mod compass;
pub mod random;
pub mod entity;
pub mod asteroid;
pub mod spaceship;
pub mod missile;
pub mod floating_text;
pub mod gamestate;
pub mod tick;
pub mod key_bindings;
pub mod controls;
