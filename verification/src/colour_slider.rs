//! Colour slider widgets: a track rectangle, the current byte value, and
//! the drag state. A pointer position is mapped linearly across the
//! track's pixel width to a value in `0..=255`, clamped at both ends.

use vstd::prelude::*;
use vstd::arithmetic::div_mod::lemma_multiply_divide_lt;
use crate::geometry::ScreenRect;

verus! {

pub const SLIDER_PADDING: i32 = 10;

/// The byte value a pointer at horizontal offset `rel` selects on a track
/// `width` pixels wide: `rel * 255 / width`, clamped into `0..=255`.
pub open spec fn slider_value_at(rel: int, width: int) -> int
    recommends
        width >= 1,
{
    if rel <= 0 {
        0
    } else if rel * 255 / width > 255 {
        255
    } else {
        rel * 255 / width
    }
}

pub struct ColourSlider {
    pub rect: ScreenRect,
    pub value: u8,
    pub is_dragging: bool,
    pub label: String,
    pub background_rect: ScreenRect,
}

impl ColourSlider {
    /// A slider whose track is inset by [`SLIDER_PADDING`] on each side of
    /// a `width` by `height` background at `(x, y)`.
    pub fn new(x: i32, y: i32, width: u32, height: u32, label: &str) -> (r: ColourSlider)
        requires
            width >= 20,
            x + 10 <= i32::MAX,
            i32::MIN <= y - 10,
            height + 20 <= u32::MAX,
        ensures
            r.rect == (ScreenRect { x: (x + 10) as i32, y, w: (width - 20) as u32, h: height }),
            r.background_rect == (ScreenRect {
                x,
                y: (y - 10) as i32,
                w: width,
                h: (height + 20) as u32,
            }),
            r.value == 0,
            !r.is_dragging,
            r.label@ == label@,
    {
        ColourSlider {
            rect: ScreenRect::new(x + SLIDER_PADDING, y, width - 20, height),
            background_rect: ScreenRect::new(x, y - SLIDER_PADDING, width, height + 20),
            value: 0,
            is_dragging: false,
            label: label.to_string(),
        }
    }

    /// While dragging, set the value the pointer at `mouse_x` selects;
    /// otherwise leave the slider unchanged.
    pub fn update(&mut self, mouse_x: i32)
        requires
            old(self).rect.w >= 1,
        ensures
            final(self).rect == old(self).rect,
            final(self).background_rect == old(self).background_rect,
            final(self).is_dragging == old(self).is_dragging,
            final(self).label == old(self).label,
            old(self).is_dragging ==> final(self).value
                == slider_value_at(mouse_x - old(self).rect.x, old(self).rect.w as int),
            !old(self).is_dragging ==> final(self).value == old(self).value,
    {
        if self.is_dragging {
            let rel: i64 = mouse_x as i64 - self.rect.x as i64;
            let v: u64 = if rel <= 0 {
                0
            } else {
                let scaled: u64 = (rel as u64) * 255 / (self.rect.w as u64);
                if scaled > 255 {
                    255
                } else {
                    scaled
                }
            };
            self.value = v as u8;
        }
    }
}

/// The channel intensity of the gradient column at horizontal offset `x`
/// on a track `width` pixels wide: the same linear map the slider value
/// follows.
pub fn gradient_value(x: u32, width: u32) -> (v: u8)
    requires
        width >= 1,
        x < width,
    ensures
        v as int == (x as int) * 255 / (width as int),
{
    let scaled: u64 = (x as u64) * 255 / (width as u64);
    proof {
        assert(x * 255 < width as int * 255) by (nonlinear_arith)
            requires
                x < width,
        {}
        lemma_multiply_divide_lt(x as int * 255, width as int, 255);
    }
    scaled as u8
}

} // verus!
