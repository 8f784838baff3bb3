//! A small animation core: colored rectangles drifting in a normalized
//! coordinate space, advanced by a fixed per-tick displacement and mapped to
//! pixel rectangles at paint time.
//!
//! All coordinates are fixed-point integers so that every step and every
//! paint mapping is exact:
//! - rectangle coordinates are stored in *micro* units (1/1,000,000 of the
//!   normalized unit interval),
//! - velocities and the tick scale are stored in *milli* units (1/1,000).
//!
//! Since milli x milli = micro, the per-tick displacement
//! `velocity * dt_scale` is a plain integer product with no rounding at all,
//! and the pixel mapping `coordinate * window_extent` is likewise an exact
//! product, expressed in micro-pixels.

pub mod geom;
pub mod paint;
pub mod sim;
pub mod ticker;
