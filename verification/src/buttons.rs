//! Clickable button widgets: a screen rectangle, a label, and the
//! rectangle the rendered label is centred into.

use vstd::prelude::*;
use crate::geometry::{centred_rect, ScreenPoint, ScreenRect};

verus! {

pub const BUTTON_WIDTH: u32 = 200;
pub const BUTTON_HEIGHT: u32 = 50;

pub struct Button {
    pub rect: ScreenRect,
    pub text: String,
    pub text_rect: ScreenRect,
}

impl Button {
    /// A button at `(x, y)` of the given size; the label rectangle starts
    /// empty and is laid out once the label's rendered size is known.
    pub fn new(x: i32, y: i32, width: u32, height: u32, text: &str) -> (r: Button)
        ensures
            r.rect == (ScreenRect { x, y, w: width, h: height }),
            r.text@ == text@,
            r.text_rect == (ScreenRect { x: 0, y: 0, w: 0, h: 0 }),
    {
        Button {
            rect: ScreenRect::new(x, y, width, height),
            text: text.to_string(),
            text_rect: ScreenRect::new(0, 0, 0, 0),
        }
    }

    /// Centre the rendered label (of size `text_width` by `text_height`)
    /// inside the button.
    pub fn update_text_position(&mut self, text_width: u32, text_height: u32)
        requires
            i32::MIN <= old(self).rect.x + crate::geometry::centre_offset(
                old(self).rect.w as int, text_width as int) <= i32::MAX,
            i32::MIN <= old(self).rect.y + crate::geometry::centre_offset(
                old(self).rect.h as int, text_height as int) <= i32::MAX,
        ensures
            final(self).text_rect == centred_rect(old(self).rect, text_width, text_height),
            final(self).rect == old(self).rect,
            final(self).text == old(self).text,
    {
        self.text_rect = crate::geometry::centre_in(&self.rect, text_width, text_height);
    }

    pub fn is_clicked(&self, point: ScreenPoint) -> (r: bool)
        ensures
            r == self.rect.spec_contains(point),
    {
        self.rect.contains_point(point)
    }
}

} // verus!
