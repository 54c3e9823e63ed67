//! The integer and buffer logic of a granular synthesis engine: a seeded
//! xorshift stream, an exact-tap circular delay buffer, the arena of live
//! grains with their age/lifetime lifecycle, and the source buffer with its
//! clamped playback region.

pub mod delay;
pub mod grains;
pub mod rng;
pub mod source;
