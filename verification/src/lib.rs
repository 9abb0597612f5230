//! Core gameplay logic for a first-person dungeon prototype: mouse-look
//! orientation tracking, physics-driven movement intents, a throwable dice
//! with face-value detection, a scripted camera takeover, wandering enemies,
//! tile-map processing and transient UI messages.
//!
//! All geometry is carried in fixed-point milli-units (one thousandth of a
//! world unit), angles in milli-degrees, and time in milliseconds, so that
//! every rule is stated and checked over exact integer arithmetic. The
//! surrounding application converts to and from the engine's floating-point
//! representation at the boundary.
//!
//! Within one simulation frame the pieces are meant to run in this order:
//! player movement and look handling first, then the dice outcome system
//! (after the physics engine has advanced velocities), then the camera
//! takeover controller, which reads the state the earlier systems wrote.

pub mod camera;
pub mod dice;
pub mod enemy;
pub mod mathx;
pub mod player;
pub mod tilemap;
pub mod ui;
pub mod windows;
