//! Batched 2D geometry for a GPU rasterizer: layered draw lists, glyph outline
//! tessellation with implicit quadratic curves, and line, ring and square
//! meshes. Everything here is exact bookkeeping on indices and bit patterns.

pub mod draw_list;
pub mod glyph;
pub mod io;
pub mod passes;
pub mod scalar;
pub mod shape;
pub mod upload;
