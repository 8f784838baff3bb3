//! The rectangle data model: fixed-point coordinates, velocities and colors.

use vstd::prelude::*;

verus! {

/// Micro units per normalized unit: a coordinate value of 1,000,000 is the
/// normalized coordinate 1.0.
pub const COORD_SCALE: i64 = 1_000_000;

/// Milli units per normalized unit: a velocity value of 1,000 is the
/// normalized velocity 1.0.
pub const VEL_SCALE: i64 = 1_000;

/// The fixed per-tick displacement factor, in milli units: 1 milli is the
/// normalized dt_scale 0.001. Ticks are assumed uniform, so this is a
/// constant, not a measured elapsed time.
pub const DT_SCALE: i64 = 1;

/// An RGB color with 8-bit channels.
#[derive(Clone, Copy, PartialEq, Eq, Structural, Debug)]
pub struct Rgb {
    pub r: u8,
    pub g: u8,
    pub b: u8,
}

/// A colored rectangle in normalized space: corner coordinates in micro
/// units (nominally inside [0, COORD_SCALE), though rectangles may drift out
/// of that range indefinitely), and a velocity in milli units per tick
/// second.
#[derive(Clone, Copy, PartialEq, Eq, Structural, Debug)]
pub struct ColorRect {
    pub x0: i64,
    pub y0: i64,
    pub x1: i64,
    pub y1: i64,
    pub vx: i64,
    pub vy: i64,
    pub color: Rgb,
}

impl ColorRect {
    /// Builds a rectangle from its top-left corner and its size, as the
    /// initial population does: the far corner is origin + size.
    pub fn from_origin_size(
        x: i64,
        y: i64,
        width: i64,
        height: i64,
        vx: i64,
        vy: i64,
        color: Rgb,
    ) -> (r: ColorRect)
        requires
            i64::MIN <= x + width <= i64::MAX,
            i64::MIN <= y + height <= i64::MAX,
        ensures
            r == (ColorRect { x0: x, y0: y, x1: (x + width) as i64, y1: (y + height) as i64, vx, vy, color }),
    {
        ColorRect { x0: x, y0: y, x1: x + width, y1: y + height, vx, vy, color }
    }
}

} // verus!
