//! The playback state machine.
//!
//! [`SongControlThread`] owns the play queue, the position in it and the
//! current settings. It decides which track comes next, forwards commands to
//! the player and tells every listener about each change. It never touches the
//! sound device: where a track has to be started it returns the path, and the
//! caller reports back through [`SongControlThread::play_song`] whether the
//! player took it.

use crate::broadcast::{broadcast, fresh_listener, ListenerView, SettingsBus};
use crate::file_utils::{list_music_files, music_files, texts, DirEntry, ListingError};
use crate::music_player::{
    commands_sent, control_result, send_control, ControlError, PlaybackControls, PlaybackStatus,
    StartOutcome,
};
use crate::play_queue::{fresh_queue, text_of, PlayQueue, QueueView};
use crate::settings_changed::{initial_settings, SettingsChanged, SettingsView};
use crossbeam_channel::Receiver;
use rand::Rng;
use std::sync::mpsc::Sender;
use vstd::prelude::*;

verus! {

/// The state machine as a mathematical value.
pub struct ControlView {
    /// The queued tracks and the position of the selected one.
    pub queue: QueueView,
    /// The settings that the next snapshot will carry.
    pub settings: SettingsView,
    /// The listeners, in the order they subscribed.
    pub listeners: Seq<ListenerView>,
    /// The commands that the player's channel has accepted, oldest first.
    pub commands: Seq<PlaybackControls>,
}

impl ControlView {
    /// Whether `roll` can serve as the draw for advancing from here.
    pub open spec fn valid_roll(self, roll: int) -> bool {
        self.queue.valid_roll(self.settings.random, roll)
    }

    /// The path that advancing asks the player to start, if any. The settings
    /// say whether the draw or the order of the queue decides.
    pub open spec fn next_track(self, roll: int) -> Option<Seq<char>> {
        self.queue.next_track(self.settings.random, self.settings.repeat, roll)
    }

    /// The state with the queue advanced and all else unchanged.
    pub open spec fn advanced(self, roll: int) -> ControlView {
        ControlView {
            queue: self.queue.advanced(self.settings.random, self.settings.repeat, roll),
            ..self
        }
    }

    /// The state after `files` have replaced the queue: nothing is selected,
    /// and the directory that was browsed is the one that plays.
    pub open spec fn loaded(self, files: Seq<Seq<char>>) -> ControlView {
        ControlView {
            queue: fresh_queue(files),
            settings: SettingsView { playing_dir: self.settings.browsing_dir, ..self.settings },
            ..self
        }
    }

    /// The state after the player has answered a request to start `song`.
    /// Only a track that did start becomes the playing one, at time zero.
    pub open spec fn after_start(self, song: Seq<char>, outcome: StartOutcome) -> ControlView {
        match outcome {
            StartOutcome::Started => ControlView {
                settings: SettingsView {
                    song_playing: song,
                    song_time: (0u32, 0u32),
                    ..self.settings
                },
                ..self
            },
            StartOutcome::Failed => self,
        }
    }

    /// The state with other settings and all else unchanged.
    pub open spec fn with_settings(self, settings: SettingsView) -> ControlView {
        ControlView { settings, ..self }
    }
}

/// `post` is `pre` after one publication of `pre`'s settings: queue, settings
/// and commands are the same, and every listener has taken its step for that
/// one snapshot.
pub open spec fn published(pre: ControlView, post: ControlView) -> bool {
    &&& post.queue == pre.queue
    &&& post.settings == pre.settings
    &&& post.commands == pre.commands
    &&& broadcast(pre.listeners, post.listeners, pre.settings)
}

/// What advancing with the draw `roll` does. Where a track is selected, the
/// position moves to it, its path is returned to be started, and nothing is
/// published yet. Where none is selected, nothing is returned and the
/// unchanged settings are published.
pub open spec fn advance_outcome(
    pre: ControlView,
    roll: int,
    post: ControlView,
    request: Option<Seq<char>>,
) -> bool {
    &&& request == pre.next_track(roll)
    &&& if request is Some {
        post == pre.advanced(roll)
    } else {
        published(pre, post)
    }
}

/// What forwarding `command` does, given what the caller was told: on `Ok`
/// the command is the newest that the player's channel holds; on `Err`
/// nothing has changed.
pub open spec fn command_outcome(
    pre: ControlView,
    command: PlaybackControls,
    post: ControlView,
    result: Result<(), ControlError>,
) -> bool {
    match result {
        Ok(_) => post == (ControlView { commands: pre.commands.push(command), ..pre }),
        Err(_) => post == pre,
    }
}

/// Every change is followed by exactly one snapshot: after a publication,
/// each listener that is still open holds one snapshot more than before, and
/// that snapshot is the settings as the change left them.
pub proof fn lemma_publication_reaches_every_open_listener(
    pre: ControlView,
    post: ControlView,
    i: int,
)
    requires
        published(pre, post),
        0 <= i < post.listeners.len(),
        post.listeners[i].open,
    ensures
        pre.listeners[i].open,
        post.listeners[i].outbox == pre.listeners[i].outbox.push(post.settings),
{
}

/// A track that fails to start is not skipped and leaves no trace: queue,
/// position and settings are as they were, the failed path has not become the
/// playing song, and the next call to advance selects what it would have
/// selected had the start never been tried.
pub proof fn lemma_failed_start_is_isolated(
    pre: ControlView,
    post: ControlView,
    song: Seq<char>,
    roll: int,
)
    requires
        published(pre.after_start(song, StartOutcome::Failed), post),
    ensures
        post.queue == pre.queue,
        post.settings == pre.settings,
        post.next_track(roll) == pre.next_track(roll),
        post.advanced(roll).queue == pre.advanced(roll).queue,
{
}

/// Draws a position below `len` with `rand::thread_rng().gen_range(0..len)`.
///
/// Trusted: `gen_range` returns a value of the half-open range it is given.
/// It panics on an empty range, which `requires` rules out. Which value comes
/// is chance, so nothing more is said of it.
#[verifier::external_body]
fn random_index(len: usize) -> (roll: usize)
    requires
        len > 0,
    ensures
        roll < len,
{
    rand::thread_rng().gen_range(0..len)
}

/// Owns the queue and the settings, and decides what plays next.
pub struct SongControlThread {
    queue: PlayQueue,
    cur_settings: SettingsChanged,
    settings_bus: SettingsBus,
    playback_controls_sender: Sender<PlaybackControls>,
}

impl View for SongControlThread {
    type V = ControlView;

    closed spec fn view(&self) -> ControlView {
        ControlView {
            queue: self.queue@,
            settings: self.cur_settings@,
            listeners: self.settings_bus@,
            commands: commands_sent(self.playback_controls_sender),
        }
    }
}

impl SongControlThread {
    /// A controller that browses `starting_dir`, with an empty queue, no
    /// listeners, and `controls` as its line to the player.
    pub fn init(starting_dir: String, controls: Sender<PlaybackControls>) -> (ctl: SongControlThread)
        ensures
            ctl@ == (ControlView {
                queue: fresh_queue(Seq::empty()),
                settings: initial_settings(starting_dir@),
                listeners: Seq::empty(),
                commands: commands_sent(controls),
            }),
    {
        let cur_settings = SettingsChanged {
            recursive: false,
            repeat: false,
            random: true,
            playing_dir: String::new(),
            browsing_dir: starting_dir,
            song_playing: String::new(),
            song_time: (0, 0),
        };
        SongControlThread {
            queue: PlayQueue::new(),
            cur_settings,
            settings_bus: SettingsBus::new(),
            playback_controls_sender: controls,
        }
    }

    /// The position of the selected track, `-1` while there is none. It never
    /// points outside the queue.
    pub fn current_index(&self) -> (index: i64)
        ensures
            index == self@.queue.index,
            self@.queue.well_formed(),
    {
        self.queue.position()
    }

    /// The queued tracks, in playing order.
    pub fn queued_music_files(&self) -> (files: &Vec<String>)
        ensures
            texts(files@) == self@.queue.files,
    {
        self.queue.files()
    }

    /// A copy of the settings as they are now.
    pub fn current_settings(&self) -> (settings: SettingsChanged)
        ensures
            settings@ == self@.settings,
    {
        self.cur_settings.clone()
    }

    /// The directory that is being browsed.
    pub fn get_browsing_dir(&self) -> (dir: String)
        ensures
            dir@ == self@.settings.browsing_dir,
    {
        self.cur_settings.browsing_dir.clone()
    }

    fn send_settings(&mut self)
        ensures
            published(old(self)@, final(self)@),
    {
        self.settings_bus.publish(&self.cur_settings);
    }

    /// Sets random order on or off and publishes the change.
    pub fn set_random(&mut self, is_random: bool)
        ensures
            published(
                old(self)@.with_settings(
                    SettingsView { random: is_random, ..old(self)@.settings },
                ),
                final(self)@,
            ),
    {
        self.cur_settings.random = is_random;
        self.send_settings();
    }

    /// Sets repeating of the whole queue on or off and publishes the change.
    pub fn set_repeat_all(&mut self, is_repeat_all: bool)
        ensures
            published(
                old(self)@.with_settings(
                    SettingsView { repeat: is_repeat_all, ..old(self)@.settings },
                ),
                final(self)@,
            ),
    {
        self.cur_settings.repeat = is_repeat_all;
        self.send_settings();
    }

    /// Sets descent into sub-directories on or off and publishes the change.
    pub fn set_recursive(&mut self, is_recursive: bool)
        ensures
            published(
                old(self)@.with_settings(
                    SettingsView { recursive: is_recursive, ..old(self)@.settings },
                ),
                final(self)@,
            ),
    {
        self.cur_settings.recursive = is_recursive;
        self.send_settings();
    }

    /// Moves the browsed directory to `dir` and publishes the change. The
    /// queue and what is playing stay as they are.
    pub fn begin_browsing(&mut self, dir: String)
        ensures
            published(
                old(self)@.with_settings(
                    SettingsView { browsing_dir: dir@, ..old(self)@.settings },
                ),
                final(self)@,
            ),
    {
        self.cur_settings.browsing_dir = dir;
        self.send_settings();
    }

    fn forward(&mut self, command: PlaybackControls) -> (result: Result<(), ControlError>)
        ensures
            command_outcome(old(self)@, command, final(self)@, result),
    {
        let accepted = send_control(&mut self.playback_controls_sender, command);
        control_result(accepted)
    }

    /// Tells the player to pause.
    pub fn pause(&mut self) -> (result: Result<(), ControlError>)
        ensures
            command_outcome(old(self)@, PlaybackControls::Pause(true), final(self)@, result),
    {
        self.forward(PlaybackControls::Pause(true))
    }

    /// Tells the player to stop.
    pub fn stop(&mut self) -> (result: Result<(), ControlError>)
        ensures
            command_outcome(old(self)@, PlaybackControls::Stop(true), final(self)@, result),
    {
        self.forward(PlaybackControls::Stop(true))
    }

    /// Tells the player to go on playing.
    pub fn play(&mut self) -> (result: Result<(), ControlError>)
        ensures
            command_outcome(old(self)@, PlaybackControls::Play(true), final(self)@, result),
    {
        self.forward(PlaybackControls::Play(true))
    }

    /// Adds a listener. It will receive every snapshot published from now on,
    /// and none of the earlier ones.
    pub fn register_settings_listener(&mut self) -> (rx: Receiver<SettingsChanged>)
        ensures
            final(self)@ == (ControlView {
                listeners: old(self)@.listeners.push(fresh_listener()),
                ..old(self)@
            }),
    {
        self.settings_bus.subscribe()
    }

    /// Advances the queue, with `roll` as the draw for random mode.
    ///
    /// Returns the path of the track to start, if one was selected. The
    /// caller starts it and reports the player's answer with
    /// [`Self::play_song`].
    pub fn select_next_song(&mut self, roll: usize) -> (request: Option<String>)
        requires
            old(self)@.valid_roll(roll as int),
        ensures
            advance_outcome(old(self)@, roll as int, final(self)@, text_of(request)),
    {
        let track = self.queue.advance(self.cur_settings.random, self.cur_settings.repeat, roll);
        if track.is_none() {
            self.send_settings();
        }
        track
    }

    /// Advances the queue; in random mode the position is drawn here.
    ///
    /// Whatever is drawn, the outcome is that of [`Self::select_next_song`]
    /// for a draw that points into the queue.
    pub fn play_next_song(&mut self) -> (request: Option<String>)
        ensures
            old(self)@.valid_roll(final(self)@.queue.index),
            advance_outcome(old(self)@, final(self)@.queue.index, final(self)@, text_of(request)),
    {
        let len: usize = self.queue.len();
        let roll: usize = if self.cur_settings.random && len > 0 {
            random_index(len)
        } else {
            0
        };
        self.select_next_song(roll)
    }

    /// Records the player's answer to a request to start `song`, and
    /// publishes the settings. A track that failed to start leaves the
    /// settings and the position in the queue as they were.
    pub fn play_song(&mut self, song: &str, outcome: StartOutcome)
        ensures
            published(old(self)@.after_start(song@, outcome), final(self)@),
    {
        match outcome {
            StartOutcome::Started => {
                self.cur_settings.song_playing = song.to_owned();
                self.cur_settings.song_time = (0, 0);
            },
            StartOutcome::Failed => {},
        }
        self.send_settings();
    }

    /// Reacts to a report from the player.
    ///
    /// Progress is noted and published. The end of a track advances the
    /// queue, as [`Self::play_next_song`] does.
    pub fn handle_status(&mut self, status: PlaybackStatus) -> (request: Option<String>)
        ensures
            match status {
                PlaybackStatus::PlaybackComplete(_) => {
                    &&& old(self)@.valid_roll(final(self)@.queue.index)
                    &&& advance_outcome(
                        old(self)@,
                        final(self)@.queue.index,
                        final(self)@,
                        text_of(request),
                    )
                },
                PlaybackStatus::PlaybackPercentage(elapsed, total) => {
                    &&& request is None
                    &&& published(
                        old(self)@.with_settings(
                            SettingsView { song_time: (elapsed, total), ..old(self)@.settings },
                        ),
                        final(self)@,
                    )
                },
            },
    {
        match status {
            PlaybackStatus::PlaybackComplete(_) => self.play_next_song(),
            PlaybackStatus::PlaybackPercentage(elapsed, total) => {
                self.cur_settings.song_time = (elapsed, total);
                self.send_settings();
                None
            },
        }
    }

    /// Makes the browsed directory the playing one, given what reading it
    /// brought, and advances to its first track.
    ///
    /// A directory that could not be read changes nothing and publishes
    /// nothing; the error goes back to the caller. So does a listing with more
    /// music files than the queue can number. Otherwise the music files of the
    /// listing replace the queue and the queue is advanced from its start.
    pub fn play_browsing_dir(&mut self, listing: Result<Vec<DirEntry>, ListingError>) -> (result:
        Result<Option<String>, ListingError>)
        ensures
            match listing {
                Err(e) => result == Err::<Option<String>, ListingError>(e) && final(self)@ == old(
                    self,
                )@,
                Ok(entries) => {
                    let files = music_files(entries@, old(self)@.settings.recursive);
                    if files.len() > i64::MAX {
                        &&& result == Err::<Option<String>, ListingError>(
                            ListingError::TooManyFiles,
                        )
                        &&& final(self)@ == old(self)@
                    } else {
                        &&& result is Ok
                        &&& old(self)@.loaded(files).valid_roll(final(self)@.queue.index)
                        &&& advance_outcome(
                            old(self)@.loaded(files),
                            final(self)@.queue.index,
                            final(self)@,
                            text_of(result->Ok_0),
                        )
                    }
                },
            },
    {
        match listing {
            Err(e) => Err(e),
            Ok(entries) => {
                let files = list_music_files(&entries, self.cur_settings.recursive);
                if !self.queue.replace(files) {
                    return Err(ListingError::TooManyFiles);
                }
                self.cur_settings.playing_dir = self.cur_settings.browsing_dir.clone();
                Ok(self.play_next_song())
            },
        }
    }
}

} // verus!
