//! Chunk records shared by several file formats.
pub mod extra;
pub mod text;
