//! Decision core of a non-destructive photo adjustment pipeline.
//!
//! Given a decoded 8-bit RGB raster and a set of named controls, the
//! pipeline produces a new raster of the same shape. This crate holds what
//! such a run decides: the settings record, which stages run and in what
//! order, the geometry of the buffer, the neighbourhood of the smoothing
//! pass, the tone curve, the integer hash behind the film grain, and the
//! camera metadata of the source file. The arithmetic on fractions is left
//! to the caller.

pub mod bands;
pub mod curve;
pub mod denoise;
pub mod metadata;
pub mod noise;
pub mod pipeline;
pub mod plan;
pub mod raster;
pub mod scalar;
pub mod settings;
pub mod stage;

pub use vstd::hash_map::StringHashMap;
