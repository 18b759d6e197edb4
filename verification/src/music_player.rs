//! The words exchanged with the audio player.
//!
//! The player itself decodes files and drives the sound device, and lives
//! outside this library. What the library shares with it is a small protocol:
//! commands that go to the player, and reports that come back from it.

use std::sync::mpsc::Sender;
use vstd::prelude::*;

verus! {

/// A command for the player.
#[derive(Debug, Clone, Copy, PartialEq, Eq)]
pub enum PlaybackControls {
    Pause(bool),
    Play(bool),
    Stop(bool),
}

/// A report from the player about the track it is playing.
#[derive(Debug, Clone, Copy, PartialEq, Eq)]
pub enum PlaybackStatus {
    /// The track has played to its end.
    PlaybackComplete(bool),
    /// Elapsed seconds and total seconds of the track.
    PlaybackPercentage(u32, u32),
}

/// The player's answer to a request to start a track.
#[derive(Debug, Clone, Copy, PartialEq, Eq)]
pub enum StartOutcome {
    /// The track is now playing.
    Started,
    /// The file could not be opened or decoded, or no sound device was there.
    Failed,
}

/// Why a command did not reach the player.
#[derive(Debug, Clone, Copy, PartialEq, Eq)]
pub enum ControlError {
    /// The player has hung up its end of the command channel.
    PlayerGone,
}

/// `std::sync::mpsc::Sender`: the sending end of the command channel. Nothing
/// of its inside is visible to the verifier.
#[verifier::external_type_specification]
#[verifier::external_body]
#[verifier::reject_recursive_types(T)]
pub struct ExControlSender<T>(Sender<T>);

/// The commands that the command channel has accepted from this sending end,
/// oldest first.
pub uninterp spec fn commands_sent(tx: Sender<PlaybackControls>) -> Seq<PlaybackControls>;

/// Hands `command` to `std::sync::mpsc::Sender::send`, which never blocks.
///
/// Trusted: `send` answers `Ok` when it has placed the value in the channel,
/// behind everything sent before, and answers `Err` without placing it when
/// the receiving end has been dropped. The result is `true` for `Ok`.
#[verifier::external_body]
pub(crate) fn send_control(tx: &mut Sender<PlaybackControls>, command: PlaybackControls) -> (accepted: bool)
    ensures
        accepted ==> commands_sent(*final(tx)) == commands_sent(*old(tx)).push(command),
        !accepted ==> commands_sent(*final(tx)) == commands_sent(*old(tx)),
{
    tx.send(command).is_ok()
}

/// What the caller of a control operation is told, given whether the channel
/// accepted the command.
pub fn control_result(accepted: bool) -> (result: Result<(), ControlError>)
    ensures
        result == if accepted {
            Ok::<(), ControlError>(())
        } else {
            Err::<(), ControlError>(ControlError::PlayerGone)
        },
{
    if accepted {
        Ok(())
    } else {
        Err(ControlError::PlayerGone)
    }
}

} // verus!
