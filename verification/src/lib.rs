//! The discrete decisions of a first-person character controller: crouching,
//! jumping, speed selection, ledge mantling and crosshair aiming.
//!
//! Every continuous quantity (positions, velocities, easing factors) lives with
//! the engine; this crate decides, frame by frame, which of the controller's
//! branches is taken and how the controller's boolean state evolves.

pub mod movement;
pub mod mantle;
pub mod controller;
pub mod aim;
pub mod laws;
