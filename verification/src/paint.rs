//! The paint mapping: normalized rectangles scaled to the current window
//! size, one draw call per rectangle.

use vstd::prelude::*;

use crate::geom::{ColorRect, Rgb};

verus! {

/// One draw call: a filled rectangle in micro-pixel units (a value of
/// 1,000,000 is one pixel), with its fill color. Micro-pixels keep the
/// product `coordinate * extent` exact; the host divides by the coordinate
/// scale when it hands the rectangle to the drawing surface.
#[derive(Clone, Copy, PartialEq, Eq, Structural, Debug)]
pub struct PxRect {
    pub x0: i64,
    pub y0: i64,
    pub x1: i64,
    pub y1: i64,
    pub color: Rgb,
}

/// The scaling law for one coordinate: a normalized coordinate maps to
/// `coordinate * extent`, exactly.
pub open spec fn scaled(coord: int, extent: int) -> int {
    coord * extent
}

/// The pixel rectangle that one normalized rectangle maps to under window
/// size `(width, height)`: `(x0*W, y0*H, x1*W, y1*H)`, with the
/// rectangle's own color.
pub open spec fn px_rect_of(p: PxRect, r: ColorRect, width: int, height: int) -> bool {
    &&& p.x0 == scaled(r.x0 as int, width)
    &&& p.y0 == scaled(r.y0 as int, height)
    &&& p.x1 == scaled(r.x1 as int, width)
    &&& p.y1 == scaled(r.y1 as int, height)
    &&& p.color == r.color
}

/// The whole paint output: one draw call per rectangle, in order, each the
/// image of its rectangle under the scaling law. An empty rectangle list
/// therefore produces zero draw calls.
pub open spec fn px_rects_of(out: Seq<PxRect>, rects: Seq<ColorRect>, width: int, height: int) -> bool {
    &&& out.len() == rects.len()
    &&& forall|i: int| 0 <= i < rects.len() ==> px_rect_of(#[trigger] out[i], rects[i], width, height)
}

/// Whether one rectangle's pixel image stays within the i64 range.
pub open spec fn rect_paint_fits(r: ColorRect, width: int, height: int) -> bool {
    &&& i64::MIN <= r.x0 * width <= i64::MAX
    &&& i64::MIN <= r.y0 * height <= i64::MAX
    &&& i64::MIN <= r.x1 * width <= i64::MAX
    &&& i64::MIN <= r.y1 * height <= i64::MAX
}

/// Whether every rectangle's pixel image stays within the i64 range.
pub open spec fn paint_fits(rects: Seq<ColorRect>, width: int, height: int) -> bool {
    forall|i: int| 0 <= i < rects.len() ==> rect_paint_fits(#[trigger] rects[i], width, height)
}

/// Decides `paint_fits` at run time, so a caller can test the machine
/// limit before painting.
pub fn can_paint(rects: &Vec<ColorRect>, width: u32, height: u32) -> (b: bool)
    ensures
        b == paint_fits(rects@, width as int, height as int),
{
    let w = width as i64;
    let h = height as i64;
    let n = rects.len();
    let mut i: usize = 0;
    while i < n
        invariant
            n == rects.len(),
            w == width as int,
            h == height as int,
            0 <= i <= n,
            forall|j: int| 0 <= j < i ==> rect_paint_fits(#[trigger] rects@[j], w as int, h as int),
        decreases n - i,
    {
        let r = rects[i];
        if r.x0.checked_mul(w).is_none() || r.y0.checked_mul(h).is_none()
            || r.x1.checked_mul(w).is_none() || r.y1.checked_mul(h).is_none() {
            return false;
        }
        i = i + 1;
    }
    true
}

/// Maps every rectangle to its draw call under the current window size.
/// The state itself is read, never changed: painting is resolution work
/// only.
pub fn paint_rects(rects: &Vec<ColorRect>, width: u32, height: u32) -> (out: Vec<PxRect>)
    requires
        paint_fits(rects@, width as int, height as int),
    ensures
        px_rects_of(out@, rects@, width as int, height as int),
{
    let w = width as i64;
    let h = height as i64;
    let n = rects.len();
    let mut out: Vec<PxRect> = Vec::new();
    let mut i: usize = 0;
    while i < n
        invariant
            n == rects.len(),
            w == width as int,
            h == height as int,
            0 <= i <= n,
            out@.len() == i,
            paint_fits(rects@, w as int, h as int),
            forall|j: int| 0 <= j < i ==> px_rect_of(#[trigger] out@[j], rects@[j], w as int, h as int),
        decreases n - i,
    {
        let r = rects[i];
        proof {
            assert(rect_paint_fits(rects@[i as int], w as int, h as int));
        }
        let p = PxRect {
            x0: r.x0 * w,
            y0: r.y0 * h,
            x1: r.x1 * w,
            y1: r.y1 * h,
            color: r.color,
        };
        out.push(p);
        i = i + 1;
    }
    out
}

/// Painting is idempotent: two paint outputs for the same window size and
/// the same rectangle list are identical.
pub proof fn lemma_paint_deterministic(
    a: Seq<PxRect>,
    b: Seq<PxRect>,
    rects: Seq<ColorRect>,
    width: int,
    height: int,
)
    requires
        px_rects_of(a, rects, width, height),
        px_rects_of(b, rects, width, height),
    ensures
        a == b,
{
    assert forall|i: int| 0 <= i < a.len() implies a[i] == b[i] by {
        assert(px_rect_of(a[i], rects[i], width, height));
        assert(px_rect_of(b[i], rects[i], width, height));
    }
    assert(a =~= b);
}

/// Doubling the window width doubles the horizontal extent of every draw
/// call and leaves the vertical extent and the color untouched.
pub proof fn lemma_double_width(p: PxRect, q: PxRect, r: ColorRect, width: int, height: int)
    requires
        px_rect_of(p, r, width, height),
        px_rect_of(q, r, 2 * width, height),
    ensures
        q.x0 == 2 * p.x0,
        q.x1 == 2 * p.x1,
        q.y0 == p.y0,
        q.y1 == p.y1,
        q.color == p.color,
{
    assert((r.x0 as int) * (2 * width) == 2 * ((r.x0 as int) * width)) by (nonlinear_arith);
    assert((r.x1 as int) * (2 * width) == 2 * ((r.x1 as int) * width)) by (nonlinear_arith);
}

/// A resize between two paints of the same state rescales the pixel output
/// proportionally: the two images of each coordinate agree after
/// cross-multiplication by the other window's extent.
pub proof fn lemma_resize_proportional(
    p: PxRect,
    q: PxRect,
    r: ColorRect,
    w1: int,
    h1: int,
    w2: int,
    h2: int,
)
    requires
        px_rect_of(p, r, w1, h1),
        px_rect_of(q, r, w2, h2),
    ensures
        p.x0 * w2 == q.x0 * w1,
        p.x1 * w2 == q.x1 * w1,
        p.y0 * h2 == q.y0 * h1,
        p.y1 * h2 == q.y1 * h1,
        q.color == p.color,
{
    assert(((r.x0 as int) * w1) * w2 == ((r.x0 as int) * w2) * w1) by (nonlinear_arith);
    assert(((r.x1 as int) * w1) * w2 == ((r.x1 as int) * w2) * w1) by (nonlinear_arith);
    assert(((r.y0 as int) * h1) * h2 == ((r.y0 as int) * h2) * h1) by (nonlinear_arith);
    assert(((r.y1 as int) * h1) * h2 == ((r.y1 as int) * h2) * h1) by (nonlinear_arith);
}

} // verus!
