//! A source of readiness events: a file descriptor, the events it is
//! polled for, and the events that fired during the last poll.

use crate::interest::{Events, Interest, POLLERR, POLLHUP, POLLNVAL, READ, WRITE};
use vstd::prelude::*;

verus! {

/// Raw file descriptor.
pub type RawFd = i32;

/// A source of readiness events, eg. a `net::TcpStream`.
#[derive(Debug, Copy, Clone, Default)]
pub struct Source {
    fd: RawFd,
    events: Interest,
    revents: Interest,
}

impl Source {
    /// The file descriptor of the source.
    pub closed spec fn spec_fd(self) -> RawFd {
        self.fd
    }

    /// The events the source is polled for.
    pub closed spec fn spec_events(self) -> Interest {
        self.events
    }

    /// The events that fired during the last poll.
    pub closed spec fn spec_revents(self) -> Events {
        self.revents
    }

    /// A source for `fd`, polled for `events`, with no event fired yet.
    pub(crate) fn new(fd: RawFd, events: Interest) -> (s: Self)
        ensures
            s.spec_fd() == fd,
            s.spec_events() == events,
            s.spec_revents() == 0,
    {
        Self { fd, events, revents: 0 }
    }

    /// This source with its fired events replaced by `revents`.
    pub(crate) fn with_revents(self, revents: Events) -> (s: Self)
        ensures
            s.spec_fd() == self.spec_fd(),
            s.spec_events() == self.spec_events(),
            s.spec_revents() == revents,
    {
        Self { revents, ..self }
    }

    /// The underlying raw file descriptor.
    pub fn as_raw_fd(&self) -> (fd: RawFd)
        ensures
            fd == self.spec_fd(),
    {
        self.fd
    }

    /// The events this source is polled for.
    pub(crate) fn interest(&self) -> (events: Interest)
        ensures
            events == self.spec_events(),
    {
        self.events
    }

    /// Set events to wait for on this source.
    pub fn set(&mut self, events: Interest)
        ensures
            final(self).spec_fd() == old(self).spec_fd(),
            final(self).spec_revents() == old(self).spec_revents(),
            final(self).spec_events() == old(self).spec_events() | events,
            final(self).spec_events() & events == events,
            final(self).spec_events() & !events == old(self).spec_events() & !events,
    {
        let old_events = self.events;
        self.events = self.events | events;
        assert((old_events | events) & events == events) by (bit_vector);
        assert((old_events | events) & !events == old_events & !events) by (bit_vector);
    }

    /// Unset events to wait for on this source.
    pub fn unset(&mut self, events: Interest)
        ensures
            final(self).spec_fd() == old(self).spec_fd(),
            final(self).spec_revents() == old(self).spec_revents(),
            final(self).spec_events() == old(self).spec_events() & !events,
            final(self).spec_events() & events == 0,
            final(self).spec_events() & !events == old(self).spec_events() & !events,
    {
        let old_events = self.events;
        self.events = self.events & !events;
        assert((old_events & !events) & events == 0) by (bit_vector);
        assert((old_events & !events) & !events == old_events & !events) by (bit_vector);
    }

    /// Returns raw representation of events which fired during poll.
    pub fn raw_events(&self) -> (revents: Events)
        ensures
            revents == self.spec_revents(),
    {
        self.revents
    }

    /// The source is writable.
    pub fn is_writable(self) -> (b: bool)
        ensures
            b == (self.spec_revents() & WRITE != 0),
    {
        self.revents & WRITE != 0
    }

    /// The source is readable.
    pub fn is_readable(self) -> (b: bool)
        ensures
            b == (self.spec_revents() & READ != 0),
    {
        self.revents & READ != 0
    }

    /// The source has been disconnected.
    pub fn is_hangup(self) -> (b: bool)
        ensures
            b == (self.spec_revents() & POLLHUP != 0),
    {
        self.revents & POLLHUP != 0
    }

    /// An error has occurred on the source.
    ///
    /// Note that this function is best used in combination with
    /// [`Self::is_invalid`], to detect all error cases.
    pub fn is_error(self) -> (b: bool)
        ensures
            b == (self.spec_revents() & POLLERR != 0),
    {
        self.revents & POLLERR != 0
    }

    /// The source is not valid.
    pub fn is_invalid(self) -> (b: bool)
        ensures
            b == (self.spec_revents() & POLLNVAL != 0),
    {
        self.revents & POLLNVAL != 0
    }
}

/// Two sources with the same descriptor, interest and fired events are the
/// same source.
pub proof fn lemma_source_ext(a: Source, b: Source)
    requires
        a.spec_fd() == b.spec_fd(),
        a.spec_events() == b.spec_events(),
        a.spec_revents() == b.spec_revents(),
    ensures
        a == b,
{
}

/// Unsetting events right after setting them leaves exactly the other
/// interests that were there before: `(e | x) & !x == e & !x`.
pub proof fn lemma_unset_undoes_set(events: Interest, x: Interest)
    ensures
        (events | x) & !x == events & !x,
{
    assert((events | x) & !x == events & !x) by (bit_vector);
}

/// Setting the same events twice is the same as setting them once, and
/// likewise for unsetting.
pub proof fn lemma_set_unset_idempotent(events: Interest, x: Interest)
    ensures
        (events | x) | x == events | x,
        (events & !x) & !x == events & !x,
{
    assert((events | x) | x == events | x) by (bit_vector);
    assert((events & !x) & !x == events & !x) by (bit_vector);
}

/// Setting events on a source that is not polled for any of them, then
/// unsetting them, gives back the interest it had.
pub proof fn lemma_set_then_unset_restores(events: Interest, x: Interest)
    requires
        events & x == 0,
    ensures
        (events | x) & !x == events,
{
    assert(events & x == 0 ==> (events | x) & !x == events) by (bit_vector);
}

} // verus!
