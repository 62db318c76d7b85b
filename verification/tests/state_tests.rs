use music_visualizer::playback_state::{clock_display, AudioPlaybackState};
use music_visualizer::visualisation_state::VisualisationState;

#[test]
fn playback_state_starts_stopped_at_zero() {
    let s = AudioPlaybackState::new();
    assert!(!s.is_playing);
    assert!(!s.should_stop);
    assert!(s.selected_song.is_none());
    assert_eq!(s.get_song_duration(), 0);
    assert_eq!(s.get_song_position(), 0);
}

#[test]
fn playback_state_setters_round_trip() {
    let mut s = AudioPlaybackState::new();
    s.set_selected_song(String::from("Now playing: tune.mp3"));
    s.set_song_duration(125);
    s.set_song_position(61);
    assert_eq!(s.selected_song.as_deref(), Some("Now playing: tune.mp3"));
    assert_eq!(s.get_song_duration(), 125);
    assert_eq!(s.get_song_position(), 61);
    assert!(!s.is_playing);
    assert!(!s.should_stop);
}

#[test]
fn clock_display_splits_minutes_and_seconds() {
    assert_eq!(clock_display(0), (0, 0));
    assert_eq!(clock_display(59), (0, 59));
    assert_eq!(clock_display(60), (1, 0));
    assert_eq!(clock_display(125), (2, 5));
}

#[test]
fn visualisation_state_starts_black_and_manual() {
    let s = VisualisationState::new();
    assert_eq!(s.red_slider, 0);
    assert_eq!(s.green_slider, 0);
    assert_eq!(s.blue_slider, 0);
    assert!(!s.get_is_auto_randomising());
}

#[test]
fn visualisation_state_initial_color_is_green() {
    let mut s = VisualisationState::new();
    s.set_initial_color();
    let c = s.get_selected_color();
    assert_eq!((c.r, c.g, c.b), (47, 198, 18));
}

#[test]
fn visualisation_state_sliders_feed_selected_color() {
    let mut s = VisualisationState::new();
    s.set_red_slider(10);
    s.set_green_slider(20);
    s.set_blue_slider(30);
    let c = s.get_selected_color();
    assert_eq!((c.r, c.g, c.b), (10, 20, 30));
    s.set_is_auto_randomising(true);
    assert!(s.get_is_auto_randomising());
}
