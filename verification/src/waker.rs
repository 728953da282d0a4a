//! The decisions of a waker: a socket pair whose reading end is polled, and
//! into whose writing end one byte is written to wake the poll.
//!
//! The writes and reads are I/O and are left to the caller, who hands each
//! outcome to these functions and does what they answer.

use vstd::prelude::*;

verus! {

/// How writing the wake-up byte went.
#[derive(Debug, Clone, Copy, PartialEq, Eq, Structural)]
pub enum WriteOutcome {
    /// The byte was written.
    Written,
    /// The socket buffer is full (`io::ErrorKind::WouldBlock`).
    WouldBlock,
    /// The write was interrupted by a signal (`io::ErrorKind::Interrupted`).
    Interrupted,
    /// Any other error.
    Failed,
}

/// What to do after an attempt to write the wake-up byte.
#[derive(Debug, Clone, Copy, PartialEq, Eq, Structural)]
pub enum WakeAction {
    /// The waker is woken: return `Ok(())`.
    Done,
    /// Drain the reading end (see [`drain_action`]), then write again.
    DrainThenRetry,
    /// Write again.
    Retry,
    /// Return the error.
    Fail,
}

/// What to do after one read while draining the reading end.
#[derive(Debug, Clone, Copy, PartialEq, Eq, Structural)]
pub enum DrainAction {
    /// Bytes were read: read again.
    ReadAgain,
    /// Nothing is left to read: return `Ok(())`.
    Done,
    /// Return the error.
    Fail,
}

/// Waking: a full buffer is drained and the write retried, an interrupted
/// write is retried, anything but success is otherwise an error.
pub fn wake_action(outcome: WriteOutcome) -> (action: WakeAction)
    ensures
        action == (match outcome {
            WriteOutcome::Written => WakeAction::Done,
            WriteOutcome::WouldBlock => WakeAction::DrainThenRetry,
            WriteOutcome::Interrupted => WakeAction::Retry,
            WriteOutcome::Failed => WakeAction::Fail,
        }),
{
    match outcome {
        WriteOutcome::Written => WakeAction::Done,
        WriteOutcome::WouldBlock => WakeAction::DrainThenRetry,
        WriteOutcome::Interrupted => WakeAction::Retry,
        WriteOutcome::Failed => WakeAction::Fail,
    }
}

/// Draining, after `read(2)` returned `read`: `-1` ends the drain, with
/// success when the error is `WouldBlock` (the socket is empty) and with the
/// error otherwise; `0` (end of stream) ends it with success; a count of
/// bytes read asks for another read.
pub fn drain_action(read: isize, would_block: bool) -> (action: DrainAction)
    ensures
        action == (if read == -1 {
            if would_block {
                DrainAction::Done
            } else {
                DrainAction::Fail
            }
        } else if read == 0 {
            DrainAction::Done
        } else {
            DrainAction::ReadAgain
        }),
{
    if read == -1 {
        if would_block {
            DrainAction::Done
        } else {
            DrainAction::Fail
        }
    } else if read == 0 {
        DrainAction::Done
    } else {
        DrainAction::ReadAgain
    }
}

} // verus!
