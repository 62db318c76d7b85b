//! Shared transport state, mutated by both the GUI thread and the decode
//! thread (behind a lock owned by the application).

use vstd::prelude::*;

verus! {

/// Play/pause/stop flags plus the displayed song name, duration and
/// position. `should_stop` is a one-way terminal signal: the decode loop
/// exits once it sees the flag and never clears it itself.
pub struct AudioPlaybackState {
    pub is_playing: bool,
    pub should_stop: bool,
    pub selected_song: Option<String>,
    pub song_duration: u32,
    pub song_position: u32,
}

impl AudioPlaybackState {
    /// A freshly created state: stopped, nothing selected, at zero.
    pub fn new() -> (r: Self)
        ensures
            !r.is_playing,
            !r.should_stop,
            r.selected_song is None,
            r.song_duration == 0,
            r.song_position == 0,
    {
        Self {
            is_playing: false,
            should_stop: false,
            selected_song: None,
            song_duration: 0,
            song_position: 0,
        }
    }

    pub fn set_selected_song(&mut self, song: String)
        ensures
            final(self).selected_song == Some(song),
            final(self).is_playing == old(self).is_playing,
            final(self).should_stop == old(self).should_stop,
            final(self).song_duration == old(self).song_duration,
            final(self).song_position == old(self).song_position,
    {
        self.selected_song = Some(song);
    }

    pub fn set_song_duration(&mut self, duration: u32)
        ensures
            final(self).song_duration == duration,
            final(self).is_playing == old(self).is_playing,
            final(self).should_stop == old(self).should_stop,
            final(self).selected_song == old(self).selected_song,
            final(self).song_position == old(self).song_position,
    {
        self.song_duration = duration;
    }

    pub fn get_song_duration(&self) -> (r: u32)
        ensures
            r == self.song_duration,
    {
        self.song_duration
    }

    pub fn set_song_position(&mut self, position: u32)
        ensures
            final(self).song_position == position,
            final(self).is_playing == old(self).is_playing,
            final(self).should_stop == old(self).should_stop,
            final(self).selected_song == old(self).selected_song,
            final(self).song_duration == old(self).song_duration,
    {
        self.song_position = position;
    }

    pub fn get_song_position(&self) -> (r: u32)
        ensures
            r == self.song_position,
    {
        self.song_position
    }
}

/// Split a second count into the minutes and seconds of the `MM:SS`
/// transport display.
pub fn clock_display(seconds: u32) -> (r: (u32, u32))
    ensures
        r.0 == seconds / 60,
        r.1 == seconds % 60,
        r.1 < 60,
{
    (seconds / 60, seconds % 60)
}

} // verus!
