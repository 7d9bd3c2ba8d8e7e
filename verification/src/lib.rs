//! The rules of a small tower-defence game, kept apart from the engine that draws it.
//!
//! Enemies appear on a repeating timer near a fixed origin, drift left at a constant speed
//! along a wave, and leave once they pass the left boundary. A click places a tower, the
//! arrow keys and the scroll wheel drive the camera, and a fixed decorative panel is laid
//! out once at startup. Every quantity is an integer on a lattice (see [`units`]), so each
//! rule is stated and proved exactly.

pub mod units;
pub mod timer;
pub mod assets;
pub mod arena;
pub mod spawner;
pub mod mover;
pub mod error;
pub mod placer;
pub mod camera;
pub mod ui;
pub mod setup;
pub mod frame;
