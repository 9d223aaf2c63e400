//! A DOS-style text terminal: a bitmap font decoded into a glyph atlas, and a
//! grid of coloured character cells placed from a queue of requests.
//!
//! The bytes of a font file ([`binary`]) are decoded into an image of its
//! glyphs ([`font`]), which is cut into one tile per glyph ([`atlas`]). A
//! terminal ([`dos`]) keeps the grid and the queue of cells that wait; once the
//! atlas is there ([`state`]) each cell becomes a textured quad with its colours
//! ([`mesh`], [`color`]) at its place in the world ([`math`]). Everything is
//! exact: places are integers and texture coordinates are fractions, and it is
//! left to the renderer to turn them into floats.

pub mod atlas;
pub mod binary;
pub mod char;
pub mod color;
pub mod dos;
pub mod error;
pub mod font;
pub mod math;
pub mod mesh;
pub mod raster;
pub mod state;
