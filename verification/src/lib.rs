//! Geometric and kinematic core of a falling-block puzzle piece.
//!
//! The library keeps a piece's authoritative logical pose as a 2D rigid
//! motion (an axis-aligned translation plus a rotation angle), animates that
//! pose for presentation through per-block stepwise interpolation, and
//! resolves collisions of the piece against the playing-field boundary.
//!
//! Every coordinate is an exact integer. Translations are measured in world
//! units (a block's edge length is the configured block size) and rotation
//! angles in fixed angle units with [`isometry::QUARTER_TURN`] units to a
//! quarter turn. All motions of the piece model are one-block axis-aligned
//! steps or quarter turns, so integer arithmetic loses nothing.

pub mod collision;
pub mod game;
pub mod geometry;
pub mod isometry;
pub mod square_block;
pub mod tetromino;
pub mod transformations;
