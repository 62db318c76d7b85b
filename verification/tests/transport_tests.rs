use music_visualizer::transport::{auto_randomise_due, AppControl, PlayAction};

#[test]
fn play_pause_play_spawns_only_one_decode_thread() {
    let mut c = AppControl::new();
    c.open_file(String::from("tune.mp3"));
    assert!(!c.has_decode_thread);

    // First play: a decode thread is spawned and the stop flag cleared.
    let a1 = c.press_play();
    assert!(matches!(a1, PlayAction::SpawnDecoder));
    assert!(c.has_decode_thread);
    assert!(c.playback.is_playing);
    assert!(!c.playback.should_stop);

    // Pause: the thread stays alive, only the flag flips.
    let a2 = c.press_play();
    assert!(matches!(a2, PlayAction::NoSpawn));
    assert!(c.has_decode_thread);
    assert!(!c.playback.is_playing);

    // Resume: still no second thread.
    let a3 = c.press_play();
    assert!(matches!(a3, PlayAction::NoSpawn));
    assert!(c.has_decode_thread);
    assert!(c.playback.is_playing);
}

#[test]
fn opening_a_file_stops_and_resets_the_transport() {
    let mut c = AppControl::new();
    c.open_file(String::from("one.mp3"));
    c.press_play();
    c.playback.song_duration = 120;
    c.playback.song_position = 30;

    c.open_file(String::from("two.mp3"));
    assert!(c.playback.should_stop);
    assert!(!c.playback.is_playing);
    assert!(!c.has_decode_thread);
    assert_eq!(c.playback.selected_song.as_deref(), Some("two.mp3"));
    assert_eq!(c.playback.song_duration, 0);
    assert_eq!(c.playback.song_position, 0);

    // The next play after a file change starts a fresh thread.
    let a = c.press_play();
    assert!(matches!(a, PlayAction::SpawnDecoder));
    assert!(!c.playback.should_stop);
}

#[test]
fn quit_requests_stop_and_joins() {
    let mut c = AppControl::new();
    c.open_file(String::from("tune.mp3"));
    c.press_play();
    c.quit();
    assert!(c.playback.should_stop);
    assert!(!c.has_decode_thread);
}

#[test]
fn auto_randomise_fires_only_on_second_boundaries_while_playing() {
    // All three conditions must hold.
    assert!(auto_randomise_due(true, true, true));
    // Paused: no colour change, whatever else holds.
    assert!(!auto_randomise_due(true, false, true));
    // Mode off.
    assert!(!auto_randomise_due(true, true, false));
    // Mid-second.
    assert!(!auto_randomise_due(false, true, true));
    assert!(!auto_randomise_due(false, false, false));
}
