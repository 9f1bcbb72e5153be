//! A verified core for picking up, carrying, dropping and throwing physics
//! props, in the manner of a "gravity gun".
//!
//! The library is independent of any physics engine: lengths are whole
//! millimetres, masses whole grams, and directions fixed-point vectors. The
//! host runs the spatial queries and hands their results in as plain values.
pub mod config;
pub mod event;
pub mod geometry;
pub mod laws;
pub mod prop;
pub mod probe;
pub mod pull_object;
pub mod world;
