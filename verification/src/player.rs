//! The player's status as mpv events move it: which events start, pause,
//! end or lose playback, and when the audio level meter is cleared.

use vstd::prelude::*;

verus! {

/// What the player is doing.
#[derive(PartialEq, Eq, Structural, Clone, Copy, Debug)]
pub enum PlaybackStatus {
    Idle,
    Playing,
    Paused,
    Stopped,
}

/// What an mpv event says about the player's status.
#[derive(PartialEq, Eq, Structural, Clone, Copy, Debug)]
pub enum StatusSignal {
    /// Playback of a file started.
    Started,
    /// Pause was switched on or off.
    PauseChanged(bool),
    /// The file ended.
    EndFile,
    /// Playback failed, or the player went away.
    Lost,
    /// An event that leaves the status as it is (a position, a volume, ...).
    Unrelated,
}

/// The status after a signal, and whether the audio level meter is cleared.
pub open spec fn spec_status_after(status: PlaybackStatus, signal: StatusSignal) -> (PlaybackStatus, bool) {
    match signal {
        StatusSignal::Started => (PlaybackStatus::Playing, false),
        StatusSignal::PauseChanged(paused) => if paused {
            (PlaybackStatus::Paused, true)
        } else {
            (PlaybackStatus::Playing, false)
        },
        StatusSignal::EndFile => (PlaybackStatus::Stopped, true),
        StatusSignal::Lost => (PlaybackStatus::Idle, true),
        StatusSignal::Unrelated => (status, false),
    }
}

/// Move the player's status by one signal. Returns the new status and
/// whether the audio level meter must be cleared: it is whenever playback
/// pauses, ends or is lost, so a stale meter never shows over silence.
pub fn status_after(status: PlaybackStatus, signal: StatusSignal) -> (next: (PlaybackStatus, bool))
    ensures
        next == spec_status_after(status, signal),
        next.1 ==> next.0 != PlaybackStatus::Playing,
{
    match signal {
        StatusSignal::Started => (PlaybackStatus::Playing, false),
        StatusSignal::PauseChanged(paused) => if paused {
            (PlaybackStatus::Paused, true)
        } else {
            (PlaybackStatus::Playing, false)
        },
        StatusSignal::EndFile => (PlaybackStatus::Stopped, true),
        StatusSignal::Lost => (PlaybackStatus::Idle, true),
        StatusSignal::Unrelated => (status, false),
    }
}

} // verus!
