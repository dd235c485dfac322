//! A small library for rendering a one-line terminal animation: a moving
//! glyph travels step by step between two boundary glyphs, one position per
//! frame. The library computes the frames; callers draw them.

pub mod config;
pub mod frame;
