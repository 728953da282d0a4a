//! Source readiness interest.
//!
//! The flag values are those of `poll(2)` on Linux for x86, x86-64, ARM and
//! AArch64 (`<poll.h>`); `POLLERR`,
//! `POLLHUP` and `POLLNVAL` are never interests, the kernel reports them on
//! its own in the returned events.

use vstd::prelude::*;

verus! {

/// Raw input or output events.
pub type Events = i16;

/// Events that can be waited for.
pub type Interest = Events;

/// The associated file is available for read operations (`POLLIN`).
pub const POLLIN: Interest = 0x1;

/// There is urgent data available for read operations (`POLLPRI`).
pub const POLLPRI: Interest = 0x2;

/// The associated file is available for write operations (`POLLOUT`).
pub const POLLOUT: Interest = 0x4;

/// Priority data may be written (`POLLWRBAND`).
pub const POLLWRBAND: Interest = 0x200;

/// An error condition on the file (`POLLERR`), output only.
pub const POLLERR: Events = 0x8;

/// The peer hung up (`POLLHUP`), output only.
pub const POLLHUP: Events = 0x10;

/// The descriptor is not open (`POLLNVAL`), output only.
pub const POLLNVAL: Events = 0x20;

/// The associated file is ready to be read.
pub const READ: Interest = POLLIN | POLLPRI;

/// The associated file is ready to be written.
pub const WRITE: Interest = POLLOUT | POLLWRBAND;

/// The associated file is ready.
pub const ALL: Interest = READ | WRITE;

/// Don't wait for any events.
pub const NONE: Interest = 0x0;

} // verus!
