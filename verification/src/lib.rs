//! A Sokoban-style puzzle engine over a fixed-stride byte grid.
//!
//! The playfield is a row-major grid of one-byte tiles with a fixed row
//! stride, the shape a raw memory region would have under a hex editor with
//! that many columns.  The engine stamps static level templates into the
//! grid, applies movement and box-pushing rules one command byte at a time,
//! detects completed levels, and advances through a fixed catalog.  Illegal
//! player actions (bumping a wall, pushing a box into a wall) are benign
//! no-ops; an internally inconsistent grid halts the engine permanently with
//! a one-byte diagnostic code.

use vstd::prelude::*;

pub mod engine;
pub mod game;
pub mod levels;
pub mod playfield;
pub mod tiles;

verus! {

/// Diagnostic code: a tile that is not one of the four composites was asked
/// to vacate.
pub const ERR_BAD_COMPOSITE: u8 = 1;

/// Diagnostic code: the current level index points past the level catalog.
pub const ERR_LEVEL_RANGE: u8 = 2;

/// Diagnostic code: the pusher's target cell holds a byte that no movement
/// rule recognises.
pub const ERR_BAD_TILE: u8 = 3;

/// Diagnostic code: the playfield does not hold exactly one pusher.
pub const ERR_NO_PUSHER: u8 = 4;

/// The value reported while no fatal condition has occurred, distinct from
/// every diagnostic code.
pub const ERR_OK: u8 = 0x42;

} // verus!
