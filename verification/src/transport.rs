//! Orchestration of the transport: `Stopped -> Playing -> Paused ->
//! Playing -> Stopped`, with the lazy decode-thread start. Opening a new
//! file requests a stop and joins the old thread; play/pause only toggles
//! `is_playing` and reuses the running thread; a decode thread is spawned
//! only when play is pressed with none alive.

use vstd::prelude::*;
use crate::playback_state::AudioPlaybackState;

verus! {

/// Whether pressing play must spawn a decode thread, or only toggle the
/// transport flags.
pub enum PlayAction {
    SpawnDecoder,
    NoSpawn,
}

/// The orchestration layer's view of the transport: the shared playback
/// flags plus whether a decode thread is alive and a file is loaded.
pub struct AppControl {
    pub playback: AudioPlaybackState,
    pub has_decode_thread: bool,
    pub file_loaded: bool,
}

/// Pressing play spawns a decode thread exactly when the transport is not
/// playing and no thread is alive.
pub open spec fn press_play_spawns(c: AppControl) -> bool {
    !c.playback.is_playing && !c.has_decode_thread
}

/// The transport state after the play button: playing pauses; paused with
/// a live thread resumes; otherwise a fresh thread is started with the
/// stop flag cleared.
pub open spec fn press_play_next(c: AppControl) -> AppControl {
    if c.playback.is_playing {
        AppControl {
            playback: AudioPlaybackState { is_playing: false, ..c.playback },
            ..c
        }
    } else if !c.has_decode_thread {
        AppControl {
            playback: AudioPlaybackState {
                is_playing: true,
                should_stop: false,
                ..c.playback
            },
            has_decode_thread: true,
            ..c
        }
    } else {
        AppControl {
            playback: AudioPlaybackState { is_playing: true, ..c.playback },
            ..c
        }
    }
}

/// The transport state after a new file is opened: the old thread is
/// stopped and joined, the song name is recorded, and position and
/// duration are reset for the fresh track.
pub open spec fn open_file_next(c: AppControl, song: Option<String>) -> AppControl {
    AppControl {
        playback: AudioPlaybackState {
            is_playing: false,
            should_stop: true,
            selected_song: song,
            song_duration: 0,
            song_position: 0,
        },
        has_decode_thread: false,
        file_loaded: true,
    }
}

impl AppControl {
    pub fn new() -> (r: AppControl)
        ensures
            !r.playback.is_playing,
            !r.playback.should_stop,
            r.playback.selected_song is None,
            r.playback.song_duration == 0,
            r.playback.song_position == 0,
            !r.has_decode_thread,
            !r.file_loaded,
    {
        AppControl {
            playback: AudioPlaybackState::new(),
            has_decode_thread: false,
            file_loaded: false,
        }
    }

    /// Handle the play button. The returned action tells the caller
    /// whether to spawn a decode thread; it never asks for one while a
    /// thread is already alive.
    pub fn press_play(&mut self) -> (a: PlayAction)
        requires
            old(self).file_loaded,
        ensures
            *final(self) == press_play_next(*old(self)),
            (a is SpawnDecoder) == press_play_spawns(*old(self)),
    {
        if self.playback.is_playing {
            self.playback.is_playing = false;
            PlayAction::NoSpawn
        } else if !self.has_decode_thread {
            self.playback.should_stop = false;
            self.playback.is_playing = true;
            self.has_decode_thread = true;
            PlayAction::SpawnDecoder
        } else {
            self.playback.is_playing = true;
            PlayAction::NoSpawn
        }
    }

    /// Handle a newly picked file: request the old decode thread to stop,
    /// record that the caller joined it, and reset the track state. The
    /// next play press starts a fresh thread.
    pub fn open_file(&mut self, song: String)
        ensures
            *final(self) == open_file_next(*old(self), Some(song)),
    {
        self.playback.should_stop = true;
        self.playback.is_playing = false;
        self.playback.selected_song = Some(song);
        self.playback.song_duration = 0;
        self.playback.song_position = 0;
        self.has_decode_thread = false;
        self.file_loaded = true;
    }

    /// Handle quit: request the decode thread to stop and record that the
    /// caller joined it.
    pub fn quit(&mut self)
        ensures
            final(self).playback.should_stop,
            final(self).playback.is_playing == old(self).playback.is_playing,
            final(self).playback.selected_song == old(self).playback.selected_song,
            final(self).playback.song_duration == old(self).playback.song_duration,
            final(self).playback.song_position == old(self).playback.song_position,
            !final(self).has_decode_thread,
            final(self).file_loaded == old(self).file_loaded,
    {
        self.playback.should_stop = true;
        self.has_decode_thread = false;
    }
}

/// Play, then pause, then play again without a file change spawns a
/// decode thread only the first time: the pause/resume path keeps the
/// thread alive and only toggles `is_playing`.
pub proof fn lemma_play_pause_play_spawns_once(c0: AppControl)
    requires
        !c0.playback.is_playing,
        !c0.has_decode_thread,
    ensures
        press_play_spawns(c0),
        !press_play_spawns(press_play_next(c0)),
        !press_play_spawns(press_play_next(press_play_next(c0))),
        press_play_next(press_play_next(press_play_next(c0))).has_decode_thread,
        press_play_next(press_play_next(press_play_next(c0))).playback.is_playing,
{
}

/// The auto-randomize trigger: a new colour triple is drawn exactly when
/// a whole second has elapsed, the transport is playing, and the mode is
/// switched on — so a paused transport never changes colours.
pub fn auto_randomise_due(second_elapsed: bool, is_playing: bool, is_auto: bool) -> (r: bool)
    ensures
        r == (second_elapsed && is_playing && is_auto),
{
    second_elapsed && is_playing && is_auto
}

} // verus!
