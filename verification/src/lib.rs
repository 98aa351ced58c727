//! Draws raster images on a 256-colour terminal with braille glyphs.
//!
//! Every glyph covers a block of 2×4 pixels. A block is reduced to a dark and
//! a bright representative colour, each pixel lights its dot when it is
//! nearer the bright one, and both colours are snapped to the terminal's
//! 256-colour palette.

pub mod block;
pub mod color;
pub mod paint;
pub mod palette;
pub mod raster;
pub mod render;
