//! Bulk colour randomization: the three channel sliders are assigned the
//! first three values of a shuffled permutation of `0..255`, so the
//! channels are guaranteed pairwise distinct.

use vstd::prelude::*;
use rand::seq::SliceRandom;
use crate::colour_slider::ColourSlider;
use crate::visualisation_state::VisualisationState;

verus! {

/// Relies on rand's `SliceRandom::shuffle` (through `rand::rng`): an
/// in-place permutation of the slice, so the result holds exactly the
/// elements of the input.
#[verifier::external_body]
fn shuffled_bytes(v: Vec<u8>) -> (r: Vec<u8>)
    ensures
        r@.to_multiset() == v@.to_multiset(),
{
    let mut v = v;
    let mut rng = rand::rng();
    v.shuffle(&mut rng);
    v
}

/// Draw three pairwise-distinct bytes, uniformly from the permutations of
/// `0..255`.
pub fn random_distinct_bytes() -> (c: (u8, u8, u8))
    ensures
        c.0 != c.1,
        c.1 != c.2,
        c.0 != c.2,
{
    let mut v: Vec<u8> = Vec::new();
    let mut i: usize = 0;
    while i < 255
        invariant
            i <= 255,
            v@.len() == i,
            forall|j: int| 0 <= j < i ==> #[trigger] v@[j] == j,
        decreases 255 - i,
    {
        v.push(i as u8);
        i = i + 1;
    }
    let shuffled: Vec<u8> = shuffled_bytes(v);
    proof {
        assert(v@.no_duplicates());
        v@.lemma_multiset_has_no_duplicates();
        shuffled@.lemma_multiset_has_no_duplicates_conv();
        assert(shuffled@.no_duplicates());
        assert(shuffled@.len() == shuffled@.to_multiset().len()) by {
            broadcast use vstd::seq_lib::group_to_multiset_ensures;
        }
        assert(v@.len() == v@.to_multiset().len()) by {
            broadcast use vstd::seq_lib::group_to_multiset_ensures;
        }
        assert(shuffled@.len() == 255);
        assert(shuffled@[0] != shuffled@[1]);
        assert(shuffled@[1] != shuffled@[2]);
        assert(shuffled@[0] != shuffled@[2]);
    }
    let a: u8 = shuffled[0];
    let b: u8 = shuffled[1];
    let c: u8 = shuffled[2];
    (a, b, c)
}

/// Assign a freshly randomized, pairwise-distinct colour triple to the
/// visualisation state and mirror it into the three slider widgets.
pub fn update_visualization_bar_colors(
    state: &mut VisualisationState,
    red_slider: &mut ColourSlider,
    green_slider: &mut ColourSlider,
    blue_slider: &mut ColourSlider,
)
    ensures
        final(state).red_slider != final(state).green_slider,
        final(state).green_slider != final(state).blue_slider,
        final(state).red_slider != final(state).blue_slider,
        final(state).is_auto_randomising == old(state).is_auto_randomising,
        final(red_slider).value == final(state).red_slider,
        final(green_slider).value == final(state).green_slider,
        final(blue_slider).value == final(state).blue_slider,
        final(red_slider).rect == old(red_slider).rect,
        final(green_slider).rect == old(green_slider).rect,
        final(blue_slider).rect == old(blue_slider).rect,
{
    let (r, g, b) = random_distinct_bytes();
    state.set_red_slider(r);
    state.set_green_slider(g);
    state.set_blue_slider(b);
    red_slider.value = r;
    green_slider.value = g;
    blue_slider.value = b;
}

} // verus!
