//! The snapshot of playback and browsing settings that listeners receive.

use vstd::prelude::*;

verus! {

/// What a [`SettingsChanged`] snapshot says, with its texts as sequences of
/// characters.
pub struct SettingsView {
    pub recursive: bool,
    pub repeat: bool,
    pub random: bool,
    pub playing_dir: Seq<char>,
    pub browsing_dir: Seq<char>,
    pub song_playing: Seq<char>,
    pub song_time: (u32, u32),
}

/// The settings of a controller that has just been started on the directory
/// `dir`: random order, no repeat, no descent into sub-directories, nothing
/// playing.
pub open spec fn initial_settings(dir: Seq<char>) -> SettingsView {
    SettingsView {
        recursive: false,
        repeat: false,
        random: true,
        playing_dir: Seq::empty(),
        browsing_dir: dir,
        song_playing: Seq::empty(),
        song_time: (0u32, 0u32),
    }
}

/// Everything a listener can observe of the controller, as of one moment.
#[derive(Debug, PartialEq, Eq)]
pub struct SettingsChanged {
    /// Whether loading a directory also takes the files of its sub-directories.
    pub recursive: bool,
    /// Whether the queue starts over after its last track.
    pub repeat: bool,
    /// Whether the next track is drawn at random.
    pub random: bool,
    /// The directory whose files are queued.
    pub playing_dir: String,
    /// The directory that the user is looking at.
    pub browsing_dir: String,
    /// Path of the track that is loaded; empty when there is none.
    pub song_playing: String,
    /// Elapsed seconds and total seconds of the track.
    pub song_time: (u32, u32),
}

impl View for SettingsChanged {
    type V = SettingsView;

    open spec fn view(&self) -> SettingsView {
        SettingsView {
            recursive: self.recursive,
            repeat: self.repeat,
            random: self.random,
            playing_dir: self.playing_dir@,
            browsing_dir: self.browsing_dir@,
            song_playing: self.song_playing@,
            song_time: self.song_time,
        }
    }
}

impl Clone for SettingsChanged {
    fn clone(&self) -> (copy: Self)
        ensures
            copy@ == self@,
    {
        SettingsChanged {
            recursive: self.recursive,
            repeat: self.repeat,
            random: self.random,
            playing_dir: self.playing_dir.clone(),
            browsing_dir: self.browsing_dir.clone(),
            song_playing: self.song_playing.clone(),
            song_time: self.song_time,
        }
    }
}

} // verus!
