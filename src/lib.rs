//! Per-frame render contract for drawing one static triangle mesh through an
//! immediate-mode graphics pipeline.
//!
//! Floats are carried as their IEEE-754 bit patterns (`u32`), so every value
//! handed to the graphics layer is described exactly, bit for bit. The library
//! computes the ordered list of graphics commands that one draw consists of;
//! issuing those commands against a real context is left to the caller.
pub mod command;
pub mod geometry;
pub mod render;
pub mod transform;
