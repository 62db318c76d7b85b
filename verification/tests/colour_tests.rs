use music_visualizer::colour::{random_distinct_bytes, update_visualization_bar_colors};
use music_visualizer::colour_slider::ColourSlider;
use music_visualizer::visualisation_state::VisualisationState;

#[test]
fn randomized_triple_is_pairwise_distinct() {
    for _ in 0..50 {
        let (r, g, b) = random_distinct_bytes();
        assert_ne!(r, g);
        assert_ne!(g, b);
        assert_ne!(r, b);
    }
}

#[test]
fn randomizer_reaches_more_than_one_triple() {
    // A randomizer that ignored its entropy source would return the
    // same triple every call.
    let first = random_distinct_bytes();
    let mut saw_other = false;
    for _ in 0..100 {
        if random_distinct_bytes() != first {
            saw_other = true;
            break;
        }
    }
    assert!(saw_other);
}

#[test]
fn bar_color_update_mirrors_state_into_sliders() {
    let mut state = VisualisationState::new();
    state.set_is_auto_randomising(true);
    let mut red = ColourSlider::new(900, 100, 300, 20, "R");
    let mut green = ColourSlider::new(900, 130, 300, 20, "G");
    let mut blue = ColourSlider::new(900, 160, 300, 20, "B");

    update_visualization_bar_colors(&mut state, &mut red, &mut green, &mut blue);

    assert_eq!(red.value, state.red_slider);
    assert_eq!(green.value, state.green_slider);
    assert_eq!(blue.value, state.blue_slider);
    assert_ne!(state.red_slider, state.green_slider);
    assert_ne!(state.green_slider, state.blue_slider);
    assert_ne!(state.red_slider, state.blue_slider);
    // The toggle is untouched by a colour change.
    assert!(state.get_is_auto_randomising());
}
