//! Session bookkeeping rules: how often the resume snapshot is written and
//! how a finished track is recorded in history.

use vstd::prelude::*;

verus! {

/// Least time between two unforced session snapshots, in milliseconds.
pub const SESSION_SAVE_INTERVAL_MS: u64 = 5000;

/// Whether a session snapshot is written now: always when forced, else
/// when none was written yet or the interval has passed since the last.
pub fn session_save_due(since_last_save_ms: Option<u64>, force: bool) -> (due: bool)
    ensures
        due == (force || match since_last_save_ms {
            Some(elapsed) => elapsed >= SESSION_SAVE_INTERVAL_MS,
            None => true,
        }),
{
    if force {
        return true;
    }
    match since_last_save_ms {
        Some(elapsed) => elapsed >= SESSION_SAVE_INTERVAL_MS,
        None => true,
    }
}

/// How a track's playback ended, as history records it.
#[derive(PartialEq, Eq, Structural, Clone, Copy, Debug)]
pub enum PlaybackOutcome {
    Completed,
    Skipped,
    Stopped,
    Failed,
}

/// The outcome of a track the player finished with the given end reason:
/// the player's `error` reason is a failure, any other end a completion.
pub fn end_file_outcome(reason: &str) -> (outcome: PlaybackOutcome)
    ensures
        outcome == (if reason@ == "error"@ {
            PlaybackOutcome::Failed
        } else {
            PlaybackOutcome::Completed
        }),
{
    proof {
        reveal_strlit("error");
    }
    let error = "error";
    let n = reason.unicode_len();
    if n != error.unicode_len() {
        assert(reason@ != error@);
        return PlaybackOutcome::Completed;
    }
    let mut i: usize = 0;
    while i < n
        invariant
            n == reason@.len(),
            n == error@.len(),
            error@ == "error"@,
            i <= n,
            forall|k: int| 0 <= k < i ==> reason@[k] == error@[k],
        decreases n - i,
    {
        if reason.get_char(i) != error.get_char(i) {
            assert(reason@[i as int] != error@[i as int]);
            return PlaybackOutcome::Completed;
        }
        i = i + 1;
    }
    assert(reason@ =~= error@);
    PlaybackOutcome::Failed
}

} // verus!
