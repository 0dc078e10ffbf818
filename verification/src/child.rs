//! Bounded child-process runs: how much of a child's stderr is kept, and
//! how each way a run can end is reported, with the process reaped on every
//! path that did not see it exit.

use vstd::prelude::*;

use crate::text::{trim_text, trimmed};

verus! {

/// Most bytes of a child's stderr that are kept.
pub const MAX_STDERR_BYTES: usize = 8 * 1024;

/// Bytes of a chunk of `chunk_len` bytes kept after `captured_len` bytes.
pub open spec fn kept_len(captured_len: nat, chunk_len: nat) -> int {
    if captured_len >= MAX_STDERR_BYTES {
        0
    } else if chunk_len <= MAX_STDERR_BYTES - captured_len {
        chunk_len as int
    } else {
        MAX_STDERR_BYTES - captured_len
    }
}

/// Keep as much of `chunk` as still fits below the stderr limit.
pub fn capture_stderr_chunk(captured: &mut Vec<u8>, chunk: &[u8])
    ensures
        final(captured)@ == old(captured)@ + chunk@.take(kept_len(old(captured)@.len(), chunk@.len())),
{
    let remaining = if captured.len() >= MAX_STDERR_BYTES {
        0
    } else {
        MAX_STDERR_BYTES - captured.len()
    };
    let keep = if chunk.len() <= remaining {
        chunk.len()
    } else {
        remaining
    };
    let ghost start = captured@;
    let mut i: usize = 0;
    while i < keep
        invariant
            keep <= chunk@.len(),
            i <= keep,
            captured@ == start + chunk@.take(i as int),
        decreases keep - i,
    {
        captured.push(chunk[i]);
        assert(chunk@.take(i + 1) == chunk@.take(i as int).push(chunk@[i as int]));
        i = i + 1;
    }
}

/// Captured stderr never exceeds the limit.
pub proof fn lemma_stderr_stays_bounded(captured: Seq<u8>, chunk: Seq<u8>)
    requires
        captured.len() <= MAX_STDERR_BYTES,
    ensures
        (captured + chunk.take(kept_len(captured.len(), chunk.len()))).len() <= MAX_STDERR_BYTES,
{
}

/// How a bounded child run ended.
#[derive(PartialEq, Eq, Structural, Clone, Copy, Debug)]
pub enum ChildEnd {
    /// The process exited; `success` is its status.
    Exited { success: bool },
    /// Writing its stdin or waiting on it failed.
    Failed,
    /// The deadline passed first.
    TimedOut,
    /// The run was cancelled.
    Cancelled,
}

/// What a child run reports.
#[derive(PartialEq, Eq, Structural, Clone, Copy, Debug)]
pub enum ChildVerdict {
    Succeeded,
    /// Report the exit status and stderr.
    ExitFailure,
    /// Report the failure that stopped the run.
    RunFailure,
    /// Report that the deadline passed.
    Timeout,
    /// Report that the run was cancelled.
    Cancelled,
}

/// The verdict of a run, and whether the process must still be killed and
/// reaped (every path on which it was not seen to exit).
pub fn child_verdict(end: ChildEnd) -> (result: (ChildVerdict, bool))
    ensures
        result == match end {
            ChildEnd::Exited { success } => (
                if success {
                    ChildVerdict::Succeeded
                } else {
                    ChildVerdict::ExitFailure
                },
                false,
            ),
            ChildEnd::Failed => (ChildVerdict::RunFailure, true),
            ChildEnd::TimedOut => (ChildVerdict::Timeout, true),
            ChildEnd::Cancelled => (ChildVerdict::Cancelled, true),
        },
        result.1 <==> !(end is Exited),
{
    match end {
        ChildEnd::Exited { success } => (
            if success {
                ChildVerdict::Succeeded
            } else {
                ChildVerdict::ExitFailure
            },
            false,
        ),
        ChildEnd::Failed => (ChildVerdict::RunFailure, true),
        ChildEnd::TimedOut => (ChildVerdict::Timeout, true),
        ChildEnd::Cancelled => (ChildVerdict::Cancelled, true),
    }
}

/// Message for a non-zero exit: the status, then the trimmed stderr when
/// there is any.
pub open spec fn exit_failure_message(status: Seq<char>, stderr_text: Seq<char>) -> Seq<char> {
    if trimmed(stderr_text).len() == 0 {
        "exit status "@ + status
    } else {
        "exit status "@ + status + ": "@ + trimmed(stderr_text)
    }
}

/// Describe a non-zero exit from its status text and the decoded stderr.
pub fn exit_failure_text(status: &str, stderr_text: &str) -> (message: String)
    ensures
        message@ == exit_failure_message(status@, stderr_text@),
{
    proof {
        reveal_strlit("exit status ");
        reveal_strlit(": ");
    }
    let detail = trim_text(stderr_text);
    let message = String::from_str("exit status ").concat(status);
    if detail.unicode_len() == 0 {
        message
    } else {
        message.concat(": ").concat(detail.as_str())
    }
}

/// Message for a run that passed its deadline.
pub open spec fn timeout_message(label: Seq<char>) -> Seq<char> {
    label + " command exceeded its deadline"@
}

/// Describe a run of the `label` helper that passed its deadline.
pub fn timeout_text(label: &str) -> (message: String)
    ensures
        message@ == timeout_message(label@),
{
    proof {
        reveal_strlit(" command exceeded its deadline");
    }
    String::from_str(label).concat(" command exceeded its deadline")
}

} // verus!
