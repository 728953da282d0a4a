//! The decisions around the `poll(2)` system call.
//!
//! Waiting is I/O and is left to the caller; what to do before the call and
//! after each return is decided here. The caller asks [`Sources::poll_start`]
//! what to do, and after each call hands the result back to
//! [`Sources::poll_continue`], until the answer is to return.

use crate::sources::Sources;
use crate::timeout::{poll_millis_of, Timeout};
use vstd::prelude::*;

verus! {

/// The kind of the OS error that a failed `poll(2)` left, as `std::io`
/// classifies the error code.
#[derive(Debug, Clone, Copy, PartialEq, Eq, Structural)]
pub enum OsErrorKind {
    /// `EAGAIN`: the kernel could not allocate its internal data
    /// (`io::ErrorKind::WouldBlock`).
    WouldBlock,
    /// `EINTR`: the call was interrupted by a signal
    /// (`io::ErrorKind::Interrupted`).
    Interrupted,
    /// Any other error, or none.
    Other,
}

/// Why a poll returns an error.
#[derive(Debug, Clone, Copy, PartialEq, Eq, Structural)]
pub enum PollError {
    /// No event fired within the timeout (`io::ErrorKind::TimedOut`).
    TimedOut,
    /// The system call failed; the caller returns the OS error it read.
    Os,
}

/// What to do next while polling.
#[derive(Debug, Clone, Copy, PartialEq, Eq)]
pub enum PollAction {
    /// Call `poll(2)` with this timeout in milliseconds (`-1`: no timeout).
    Wait(i32),
    /// Return this result: the number of sources with events, or an error.
    Return(Result<usize, PollError>),
}

/// What follows a return of `poll(2)` with `result`, `os_error` being the
/// kind of the OS error read right after it, on a registry of `registered`
/// sources.
pub open spec fn poll_outcome(registered: nat, timeout: Timeout, result: i32, os_error: OsErrorKind) -> PollAction {
    if result == 0 {
        if registered == 0 {
            PollAction::Return(Ok(0))
        } else {
            PollAction::Return(Err(PollError::TimedOut))
        }
    } else if result > 0 {
        PollAction::Return(Ok(result as usize))
    } else if os_error == OsErrorKind::WouldBlock || os_error == OsErrorKind::Interrupted {
        PollAction::Wait(poll_millis_of(timeout) as i32)
    } else {
        PollAction::Return(Err(PollError::Os))
    }
}

impl<K> Sources<K> {
    /// What to do first when polling: with nothing registered, return
    /// `Ok(0)` at once; otherwise wait with the given timeout.
    pub fn poll_start(&self, timeout: &Timeout) -> (action: PollAction)
        requires
            self.wf(),
        ensures
            action == (if self.list().len() == 0 {
                PollAction::Return(Ok(0))
            } else {
                PollAction::Wait(poll_millis_of(*timeout) as i32)
            }),
    {
        let millis = timeout.poll_millis();
        if self.is_empty() {
            PollAction::Return(Ok(0))
        } else {
            PollAction::Wait(millis)
        }
    }

    /// What to do after `poll(2)` returned `result`, `os_error` being the
    /// kind of the OS error read right after it: a positive count is
    /// returned, zero means the timeout passed, `EAGAIN` and `EINTR` call
    /// again, any other failure is returned.
    pub fn poll_continue(&self, timeout: &Timeout, result: i32, os_error: OsErrorKind) -> (action: PollAction)
        requires
            self.wf(),
        ensures
            action == poll_outcome(self.list().len(), *timeout, result, os_error),
            result > 0 ==> action == PollAction::Return(Ok(result as usize)),
            result == 0 ==> action == (if self.list().len() == 0 {
                PollAction::Return(Ok(0))
            } else {
                PollAction::Return(Err(PollError::TimedOut))
            }),
            result < 0 && (os_error == OsErrorKind::WouldBlock || os_error == OsErrorKind::Interrupted)
                ==> action == PollAction::Wait(poll_millis_of(*timeout) as i32),
            result < 0 && os_error == OsErrorKind::Other ==> action == PollAction::Return(Err(PollError::Os)),
    {
        if result == 0 {
            if self.is_empty() {
                PollAction::Return(Ok(0))
            } else {
                PollAction::Return(Err(PollError::TimedOut))
            }
        } else if result > 0 {
            PollAction::Return(Ok(result as usize))
        } else {
            match os_error {
                OsErrorKind::WouldBlock | OsErrorKind::Interrupted => PollAction::Wait(timeout.poll_millis()),
                OsErrorKind::Other => PollAction::Return(Err(PollError::Os)),
            }
        }
    }
}

/// What follows a return of `poll(2)`, over every registry and timeout:
/// - a positive count is returned as it is, whatever the timeout;
/// - a failure by `EAGAIN` or `EINTR` calls `poll(2)` again with the very
///   timeout the first call had, whatever the number of sources;
/// - the timeout error follows exactly a zero result on a non-empty
///   registry, and an OS error exactly any other failure;
/// - apart from a zero result, the number of registered sources changes
///   nothing.
pub proof fn lemma_poll_outcome(registered: nat, other: nat, timeout: Timeout, result: i32, os_error: OsErrorKind)
    ensures
        result > 0 ==> poll_outcome(registered, timeout, result, os_error) == PollAction::Return(Ok(result as usize)),
        result < 0 && (os_error == OsErrorKind::WouldBlock || os_error == OsErrorKind::Interrupted)
            ==> poll_outcome(registered, timeout, result, os_error) == PollAction::Wait(poll_millis_of(timeout) as i32),
        (poll_outcome(registered, timeout, result, os_error) == PollAction::Return(Err(PollError::TimedOut)))
            <==> (result == 0 && registered > 0),
        (poll_outcome(registered, timeout, result, os_error) == PollAction::Return(Err(PollError::Os)))
            <==> (result < 0 && os_error == OsErrorKind::Other),
        (poll_outcome(registered, timeout, result, os_error) is Wait) <==> (result < 0 && os_error != OsErrorKind::Other),
        result != 0 ==> poll_outcome(registered, timeout, result, os_error) == poll_outcome(other, timeout, result, os_error),
        poll_outcome(registered, timeout, result, os_error) matches PollAction::Return(Ok(n)) ==> (
            (result > 0 && n == result) || (result == 0 && n == 0 && registered == 0)),
{
}

/// A retried `poll(2)` waits exactly as long as the first call did: the
/// wait that follows `EAGAIN` or `EINTR` is the one that starts a poll on a
/// non-empty registry.
pub proof fn lemma_retry_keeps_timeout(registered: nat, timeout: Timeout, result: i32, os_error: OsErrorKind)
    requires
        registered > 0,
        result < 0,
        os_error == OsErrorKind::WouldBlock || os_error == OsErrorKind::Interrupted,
    ensures
        poll_outcome(registered, timeout, result, os_error) == PollAction::Wait(poll_millis_of(timeout) as i32),
        -1 <= poll_millis_of(timeout) <= i32::MAX,
        poll_millis_of(timeout) == -1 <==> timeout is Never,
{
    crate::timeout::lemma_poll_millis_clipped(timeout);
}

} // verus!
