//! Entity and component storage for a small voxel world: generational
//! handles, sparse component tables, and the per-tick update passes that
//! walk them.

pub mod generation;
pub mod lifecycle;
pub mod circular;
pub mod payload;
pub mod voxel;
pub mod entity;
pub mod movement;
pub mod physics;
pub mod puppet;
pub mod action;
pub mod math;
pub mod time;
pub mod input;
pub mod console;
pub mod dispatch;
