//! Simulation core of a two-board falling-block match, together with the
//! glyph codec of the tile renderer that draws it.

pub mod ai;
pub mod board;
pub mod cell;
pub mod grid;
pub mod model;
pub mod piece;
pub mod rand;
pub mod style;
pub mod symbol;
