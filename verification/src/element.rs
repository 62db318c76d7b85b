//! Text elements: a positioned rectangle holding a rendered label, with
//! the scrolling used by the song-name marquee.

use vstd::prelude::*;
use crate::geometry::{centred_rect, ScreenRect};

verus! {

pub struct Element {
    pub rect: ScreenRect,
    pub text: String,
}

impl Element {
    pub fn new(x: i32, y: i32, width: u32, height: u32, text: &str) -> (r: Element)
        ensures
            r.rect == (ScreenRect { x, y, w: width, h: height }),
            r.text@ == text@,
    {
        Element { rect: ScreenRect::new(x, y, width, height), text: text.to_string() }
    }

    /// Replace the rectangle by one of the rendered label's size, centred
    /// inside the old rectangle.
    pub fn update_text_position(&mut self, text_width: u32, text_height: u32)
        requires
            i32::MIN <= old(self).rect.x + crate::geometry::centre_offset(
                old(self).rect.w as int, text_width as int) <= i32::MAX,
            i32::MIN <= old(self).rect.y + crate::geometry::centre_offset(
                old(self).rect.h as int, text_height as int) <= i32::MAX,
        ensures
            final(self).rect == centred_rect(old(self).rect, text_width, text_height),
            final(self).text == old(self).text,
    {
        self.rect = crate::geometry::centre_in(&self.rect, text_width, text_height);
    }

    /// Move the element to `x + shift_x`, keeping its size.
    pub fn move_element(&mut self, x: i32, y: i32, shift_x: i32)
        requires
            i32::MIN <= x + shift_x <= i32::MAX,
        ensures
            final(self).rect == (ScreenRect {
                x: (x + shift_x) as i32,
                y,
                w: old(self).rect.w,
                h: old(self).rect.h,
            }),
            final(self).text == old(self).text,
    {
        let nx: i64 = x as i64 + shift_x as i64;
        self.rect = ScreenRect::new(nx as i32, y, self.rect.w, self.rect.h);
    }

    pub fn get_element_current_position(&self) -> (r: i32)
        ensures
            r == self.rect.x,
    {
        self.rect.x
    }
}

} // verus!
