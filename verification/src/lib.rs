//! Core of a tile-based game prototype: a static isometric board, a
//! component store for entities that move tile to tile, and the two
//! systems (movement and animation) that advance them each tick.
//!
//! All geometry is exact integer arithmetic. World-space coordinates are
//! unsigned integers in subunits of the caller's choosing (the same unit as
//! `tile_size`), and animation progress is a fixed-point fraction. This
//! keeps every formula of the simulation a provable statement about
//! integers.

pub mod grid;
pub mod input;
pub mod iso_coords;
pub mod positioning;
pub mod world;
