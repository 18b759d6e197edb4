//! The engine of a small music player: which track plays next, what the
//! current settings are, and who is told when they change.
//!
//! The library decides and records; it does not read directories, decode
//! audio or start threads. A program around it lists a directory and hands
//! the listing to [`controller::SongControlThread`], starts the tracks that
//! the controller selects, and feeds the player's reports back to it.
//!
//! * [`file_utils`] picks the music files out of a directory listing.
//! * [`play_queue`] holds the queue and the rule for the next track.
//! * [`broadcast`] sends each settings snapshot to every listener.
//! * [`music_player`] names the commands and reports exchanged with the player.
//! * [`settings_changed`] is the snapshot itself.
//! * [`controller`] ties them together.

pub mod broadcast;
pub mod controller;
pub mod file_utils;
pub mod music_player;
pub mod play_queue;
pub mod settings_changed;
