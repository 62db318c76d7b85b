//! Plain integer rectangles and points for widget layout and
//! hit-testing. The application converts them to its drawing library's
//! types at the edge.

use vstd::prelude::*;

verus! {

#[derive(Clone, Copy, PartialEq, Eq, Structural, Debug)]
pub struct ScreenPoint {
    pub x: i32,
    pub y: i32,
}

/// An axis-aligned rectangle: top-left corner plus width and height in
/// pixels.
#[derive(Clone, Copy, PartialEq, Eq, Structural, Debug)]
pub struct ScreenRect {
    pub x: i32,
    pub y: i32,
    pub w: u32,
    pub h: u32,
}

impl ScreenRect {
    /// Whether `p` lies inside the rectangle; the right and bottom edges
    /// are exclusive.
    pub open spec fn spec_contains(self, p: ScreenPoint) -> bool {
        &&& self.x <= p.x
        &&& (p.x as int) < self.x + self.w
        &&& self.y <= p.y
        &&& (p.y as int) < self.y + self.h
    }

    pub fn new(x: i32, y: i32, w: u32, h: u32) -> (r: ScreenRect)
        ensures
            r == (ScreenRect { x, y, w, h }),
    {
        ScreenRect { x, y, w, h }
    }

    pub fn contains_point(&self, p: ScreenPoint) -> (r: bool)
        ensures
            r == self.spec_contains(p),
    {
        let right: i64 = self.x as i64 + self.w as i64;
        let bottom: i64 = self.y as i64 + self.h as i64;
        self.x <= p.x && (p.x as i64) < right && self.y <= p.y && (p.y as i64) < bottom
    }
}

/// The horizontal or vertical offset that centres a span of size `inner`
/// inside a span of size `outer`, rounding the half toward zero as the
/// widget layout always has.
pub open spec fn centre_offset(outer: int, inner: int) -> int {
    if inner <= outer {
        (outer - inner) / 2
    } else {
        -((inner - outer) / 2)
    }
}

/// The rectangle that centres a `tw` by `th` span inside `outer`.
pub open spec fn centred_rect(outer: ScreenRect, tw: u32, th: u32) -> ScreenRect {
    ScreenRect {
        x: (outer.x + centre_offset(outer.w as int, tw as int)) as i32,
        y: (outer.y + centre_offset(outer.h as int, th as int)) as i32,
        w: tw,
        h: th,
    }
}

/// Centre a `tw` by `th` text span inside `outer`, as the buttons and
/// text elements lay their labels out.
pub fn centre_in(outer: &ScreenRect, tw: u32, th: u32) -> (r: ScreenRect)
    requires
        i32::MIN <= outer.x + centre_offset(outer.w as int, tw as int) <= i32::MAX,
        i32::MIN <= outer.y + centre_offset(outer.h as int, th as int) <= i32::MAX,
    ensures
        r == centred_rect(*outer, tw, th),
{
    let dx: i64 = if tw <= outer.w {
        ((outer.w - tw) / 2) as i64
    } else {
        -(((tw - outer.w) / 2) as i64)
    };
    let dy: i64 = if th <= outer.h {
        ((outer.h - th) / 2) as i64
    } else {
        -(((th - outer.h) / 2) as i64)
    };
    ScreenRect {
        x: (outer.x as i64 + dx) as i32,
        y: (outer.y as i64 + dy) as i32,
        w: tw,
        h: th,
    }
}

/// Width of one visualization bar in pixels: a sixteenth of the
/// visualization area less the two-pixel gap.
pub const BAR_WIDTH: u32 = 60;

/// Left edge of the visualization area.
pub const VIZ_X: i32 = 140;

/// Height of the visualization area in pixels.
pub const VIZ_HEIGHT: u32 = 300;

/// Bottom edge of the visualization area.
pub const VIZ_BOTTOM: i32 = 670;

/// The rectangle of visualization bar `i` (one of 16) for an amplitude in
/// fixed point at `65536`: bars sit side by side with a two-pixel gap and
/// grow upward from the bottom of the visualization area, a full-scale
/// amplitude reaching its top.
pub fn bar_rect(i: usize, amplitude: u64) -> (r: ScreenRect)
    requires
        i < 16,
        amplitude <= 65536,
    ensures
        r.x == VIZ_X + i * 62,
        r.h == (amplitude * VIZ_HEIGHT) / 65536,
        r.y == VIZ_BOTTOM - r.h,
        r.w == BAR_WIDTH,
{
    let height: u64 = amplitude * (VIZ_HEIGHT as u64) / 65536;
    proof {
        assert(height <= 300);
    }
    let x: i32 = VIZ_X + (i as i32) * 62;
    let y: i32 = VIZ_BOTTOM - (height as i32);
    ScreenRect { x, y, w: BAR_WIDTH, h: height as u32 }
}

} // verus!
