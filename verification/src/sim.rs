//! Simulation state: an ordered list of rectangles advanced in place once
//! per tick by the fixed displacement law.

use vstd::prelude::*;

use crate::geom::{ColorRect, DT_SCALE};

verus! {

/// The per-tick displacement of one velocity component, in micro units of
/// coordinate. Velocity is in milli units and dt_scale in milli units, and
/// milli times milli is micro, so `velocity * dt_scale` is this exact
/// integer product.
pub open spec fn displacement(v: int) -> int {
    v * (DT_SCALE as int)
}

/// Whether one rectangle can take a step without leaving the i64 range.
pub open spec fn rect_step_fits(r: ColorRect) -> bool {
    &&& i64::MIN <= r.x0 + displacement(r.vx as int) <= i64::MAX
    &&& i64::MIN <= r.x1 + displacement(r.vx as int) <= i64::MAX
    &&& i64::MIN <= r.y0 + displacement(r.vy as int) <= i64::MAX
    &&& i64::MIN <= r.y1 + displacement(r.vy as int) <= i64::MAX
}

/// One rectangle after one tick: every position coordinate moves by
/// `velocity * dt_scale`; velocity and color are unchanged.
pub open spec fn rect_stepped(r: ColorRect) -> ColorRect {
    ColorRect {
        x0: (r.x0 + displacement(r.vx as int)) as i64,
        y0: (r.y0 + displacement(r.vy as int)) as i64,
        x1: (r.x1 + displacement(r.vx as int)) as i64,
        y1: (r.y1 + displacement(r.vy as int)) as i64,
        vx: r.vx,
        vy: r.vy,
        color: r.color,
    }
}

/// A rectangle with zero velocity does not move: a step leaves it exactly
/// as it was, so by induction its position is unchanged after any number
/// of ticks.
pub proof fn lemma_zero_velocity_fixed(r: ColorRect)
    requires
        r.vx == 0,
        r.vy == 0,
    ensures
        rect_stepped(r) == r,
{
}

/// The whole simulation state: the one shared, ordered rectangle list.
/// It is populated once at startup and never resized afterwards; `step`
/// keeps its length.
pub struct AppData {
    pub rects: Vec<ColorRect>,
}

impl AppData {
    /// Wraps an initial rectangle list, unchanged.
    pub fn new(rects: Vec<ColorRect>) -> (s: Self)
        ensures
            s.rects@ == rects@,
    {
        AppData { rects }
    }

    /// Whether every rectangle of the state can take a step within i64.
    pub open spec fn step_fits(self) -> bool {
        forall|i: int| 0 <= i < self.rects@.len() ==> rect_step_fits(#[trigger] self.rects@[i])
    }

    /// Decides `step_fits` at run time, so a caller can test the machine
    /// limit before stepping.
    pub fn can_step(&self) -> (b: bool)
        ensures
            b == self.step_fits(),
    {
        let n = self.rects.len();
        let mut i: usize = 0;
        while i < n
            invariant
                n == self.rects.len(),
                0 <= i <= n,
                forall|j: int| 0 <= j < i ==> rect_step_fits(#[trigger] self.rects@[j]),
            decreases n - i,
        {
            let r = self.rects[i];
            let dx = r.vx * DT_SCALE;
            let dy = r.vy * DT_SCALE;
            if r.x0.checked_add(dx).is_none() || r.x1.checked_add(dx).is_none()
                || r.y0.checked_add(dy).is_none() || r.y1.checked_add(dy).is_none() {
                return false;
            }
            i = i + 1;
        }
        true
    }

    /// One tick: every rectangle's position advances by its velocity times
    /// dt_scale, exactly; nothing else about the state changes.
    pub fn step(&mut self)
        requires
            old(self).step_fits(),
        ensures
            final(self).rects@.len() == old(self).rects@.len(),
            forall|i: int| 0 <= i < old(self).rects@.len()
                ==> final(self).rects@[i] == rect_stepped(#[trigger] old(self).rects@[i]),
    {
        let n = self.rects.len();
        let mut i: usize = 0;
        while i < n
            invariant
                n == old(self).rects@.len(),
                self.rects@.len() == n,
                0 <= i <= n,
                old(self).step_fits(),
                forall|j: int| 0 <= j < i
                    ==> self.rects@[j] == rect_stepped(#[trigger] old(self).rects@[j]),
                forall|j: int| i <= j < n ==> self.rects@[j] == #[trigger] old(self).rects@[j],
            decreases n - i,
        {
            let r = self.rects[i];
            proof {
                assert(self.rects@[i as int] == old(self).rects@[i as int]);
                assert(rect_step_fits(old(self).rects@[i as int]));
            }
            let dx = r.vx * DT_SCALE;
            let dy = r.vy * DT_SCALE;
            let moved = ColorRect {
                x0: r.x0 + dx,
                y0: r.y0 + dy,
                x1: r.x1 + dx,
                y1: r.y1 + dy,
                vx: r.vx,
                vy: r.vy,
                color: r.color,
            };
            self.rects.set(i, moved);
            i = i + 1;
        }
    }

    /// The repaint decision after a data change notification: repaint
    /// exactly when the rectangle lists differ.
    pub fn needs_repaint(&self, other: &AppData) -> (r: bool)
        ensures
            r == (self.rects@ != other.rects@),
    {
        let n = self.rects.len();
        if n != other.rects.len() {
            return true;
        }
        let mut i: usize = 0;
        while i < n
            invariant
                n == self.rects.len(),
                n == other.rects.len(),
                0 <= i <= n,
                forall|j: int| 0 <= j < i ==> self.rects@[j] == #[trigger] other.rects@[j],
            decreases n - i,
        {
            if self.rects[i] != other.rects[i] {
                return true;
            }
            i = i + 1;
        }
        proof {
            assert(self.rects@ =~= other.rects@);
        }
        false
    }
}

} // verus!
