//! Core logic of a small 2D platformer: an axis-separated collision/physics
//! resolver for actors against solid tiles and level bounds, and a family of
//! overlap-driven interaction checks between the player and world objects
//! (doors, coins, triggers, hazards, totems, enemies).
//!
//! Positions, velocities and box extents are whole numbers of world units;
//! every box is given by its centre and half-extents. The engine runtime
//! (windowing, rendering, input sampling, level-file loading, the entity
//! store) lives outside this crate and hands the functions here plain values.

pub mod actor;
pub mod camera;
pub mod fields;
pub mod geom;
pub mod hazards;
pub mod input;
pub mod interact;
pub mod level;
pub mod physics;
pub mod state;
