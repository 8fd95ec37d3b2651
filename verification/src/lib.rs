//! A safety layer in front of a stateful native ephemeris engine.
//!
//! The engine computes positions of celestial bodies, keeps process-wide
//! state and talks through raw numbers and fixed-size byte buffers. This
//! library owns everything around the engine calls that can be decided
//! without making them: the configure / use / close lifecycle, the mapping
//! between typed inputs and the engine's integer codes, and the decoding of
//! what the engine writes back. The calls themselves are made by the
//! embedding program, which hands the raw replies to the functions here.

pub mod swiss_ephm;
