//! Shared colour/animation parameters: three byte-valued channel sliders
//! and the auto-randomize toggle. Written by UI handlers, read by the
//! renderer each frame (behind a lock owned by the application).

use vstd::prelude::*;

verus! {

/// A plain RGB triple; the application converts it to its drawing
/// library's colour type at the edge.
#[derive(Clone, Copy, PartialEq, Eq, Structural, Debug)]
pub struct Rgb {
    pub r: u8,
    pub g: u8,
    pub b: u8,
}

pub struct VisualisationState {
    pub red_slider: u8,
    pub green_slider: u8,
    pub blue_slider: u8,
    pub is_auto_randomising: bool,
}

impl VisualisationState {
    /// A freshly created state: all channels at zero, auto-randomize off.
    pub fn new() -> (r: Self)
        ensures
            r.red_slider == 0,
            r.green_slider == 0,
            r.blue_slider == 0,
            !r.is_auto_randomising,
    {
        Self {
            red_slider: 0,
            green_slider: 0,
            blue_slider: 0,
            is_auto_randomising: false,
        }
    }

    pub fn set_red_slider(&mut self, value: u8)
        ensures
            final(self).red_slider == value,
            final(self).green_slider == old(self).green_slider,
            final(self).blue_slider == old(self).blue_slider,
            final(self).is_auto_randomising == old(self).is_auto_randomising,
    {
        self.red_slider = value;
    }

    pub fn set_green_slider(&mut self, value: u8)
        ensures
            final(self).green_slider == value,
            final(self).red_slider == old(self).red_slider,
            final(self).blue_slider == old(self).blue_slider,
            final(self).is_auto_randomising == old(self).is_auto_randomising,
    {
        self.green_slider = value;
    }

    pub fn set_blue_slider(&mut self, value: u8)
        ensures
            final(self).blue_slider == value,
            final(self).red_slider == old(self).red_slider,
            final(self).green_slider == old(self).green_slider,
            final(self).is_auto_randomising == old(self).is_auto_randomising,
    {
        self.blue_slider = value;
    }

    /// The colour the UI starts with before any user interaction.
    pub fn set_initial_color(&mut self)
        ensures
            final(self).red_slider == 47,
            final(self).green_slider == 198,
            final(self).blue_slider == 18,
            final(self).is_auto_randomising == old(self).is_auto_randomising,
    {
        self.red_slider = 47;
        self.green_slider = 198;
        self.blue_slider = 18;
    }

    pub fn get_selected_color(&self) -> (c: Rgb)
        ensures
            c.r == self.red_slider,
            c.g == self.green_slider,
            c.b == self.blue_slider,
    {
        Rgb { r: self.red_slider, g: self.green_slider, b: self.blue_slider }
    }

    pub fn set_is_auto_randomising(&mut self, value: bool)
        ensures
            final(self).is_auto_randomising == value,
            final(self).red_slider == old(self).red_slider,
            final(self).green_slider == old(self).green_slider,
            final(self).blue_slider == old(self).blue_slider,
    {
        self.is_auto_randomising = value;
    }

    pub fn get_is_auto_randomising(&self) -> (r: bool)
        ensures
            r == self.is_auto_randomising,
    {
        self.is_auto_randomising
    }
}

} // verus!
