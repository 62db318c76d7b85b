use music_visualizer::engine::{decode_tick, duration_seconds, DecodeEngine, LoopAction};
use music_visualizer::playback_state::AudioPlaybackState;

#[test]
fn stop_flag_always_wins_the_tick() {
    let mut s = AudioPlaybackState::new();
    s.should_stop = true;
    s.is_playing = true;
    assert!(matches!(decode_tick(&s), LoopAction::Stop));
    s.is_playing = false;
    assert!(matches!(decode_tick(&s), LoopAction::Stop));
}

#[test]
fn paused_transport_waits_and_playing_transport_decodes() {
    let mut s = AudioPlaybackState::new();
    assert!(matches!(decode_tick(&s), LoopAction::Wait));
    s.is_playing = true;
    assert!(matches!(decode_tick(&s), LoopAction::DecodeNext));
}

#[test]
fn stop_request_is_honoured_within_bounded_iterations() {
    // A fake decoder yielding packets forever: once should_stop is set,
    // the very next tick exits the loop, whatever the decoder holds.
    let mut s = AudioPlaybackState::new();
    s.is_playing = true;
    let mut iterations = 0;
    loop {
        match decode_tick(&s) {
            LoopAction::Stop => break,
            _ => {
                iterations += 1;
                if iterations == 3 {
                    s.should_stop = true;
                }
                assert!(iterations < 5, "loop failed to honour the stop request");
            }
        }
    }
    assert_eq!(iterations, 3);
}

#[test]
fn two_second_mono_track_reports_positions_0_0_1_1_2() {
    // A 2-second mono 44.1 kHz source on a 48 kHz device, decoded in
    // five equal packets of 0.4 s each.
    let mut e = DecodeEngine::new(44100, 48000, 1);
    let packet: Vec<i64> = vec![0; 17640];
    let mut positions = Vec::new();
    for _ in 0..5 {
        let (pos, resampled) = e.on_packet(&packet);
        positions.push(pos);
        // Each packet is stretched to the device rate.
        let scaled = (resampled.len() as i64) * 44100 - 17640i64 * 48000;
        assert!(0 <= scaled && scaled < 44100);
    }
    assert_eq!(positions, vec![0, 0, 1, 1, 2]);
    assert_eq!(duration_seconds(88200, 1, 44100), 2);
}

#[test]
fn stereo_packets_count_frames_not_samples() {
    // 44100 interleaved stereo samples are only half a second.
    let mut e = DecodeEngine::new(44100, 44100, 2);
    let packet: Vec<i64> = vec![0; 44100];
    let (pos, _) = e.on_packet(&packet);
    assert_eq!(pos, 0);
    let (pos, _) = e.on_packet(&packet);
    assert_eq!(pos, 1);
}

#[test]
fn duration_uses_the_codec_time_base() {
    // 90 s at a 1/30000 time base with 30000 frames per second.
    assert_eq!(duration_seconds(2_700_000, 1, 30000), 90);
    // Rounds down.
    assert_eq!(duration_seconds(88199, 1, 44100), 1);
    assert_eq!(duration_seconds(0, 1, 44100), 0);
}
