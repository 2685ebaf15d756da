//! Client-side world model of a bubble sanctuary game: the shared data
//! types, the bubble graph with its id allocator, the client's copy of the
//! world, and the CPU-side packing of bubble data for GPU textures.
//!
//! Floating-point values never appear here: every `f32` of the game is held
//! by its IEEE-754 bit pattern (`F32Bits`), and all arithmetic on such values
//! is done by the application around this library.

pub mod graph;
pub mod shared;
pub mod world;
pub mod render;
