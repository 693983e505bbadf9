//! Deterministic lookup of pre-rendered visual tiles (chess pieces, board
//! squares, accent colors) from a palette-indexed sprite atlas, together
//! with an eager, immutable cache of such atlases across board-theme and
//! piece-set variants.

pub mod pieces;
pub mod keys;
pub mod grid;
pub mod gif;
pub mod theme;
pub mod themes;
