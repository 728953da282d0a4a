//! Minimal non-blocking I/O: a registry of event sources for `poll(2)`,
//! with the decisions around the system calls stated and proved.
//!
//! The system calls themselves (`poll`, `read`, `write`, `fcntl`) are made
//! by the caller, who hands their results to the functions here.
//!
//! The interest flags in [`interest`] are the `poll(2)` values of Linux on
//! x86, x86-64, ARM and AArch64; other platforms (the BSDs, macOS, Linux on
//! MIPS or SPARC) number `POLLWRBAND` differently.

pub mod interest;
pub mod nonblocking;
pub mod poll;
pub mod source;
pub mod sources;
pub mod timeout;
pub mod waker;

pub use interest::{Events, Interest};
pub use nonblocking::nonblocking_flags;
pub use poll::{OsErrorKind, PollAction, PollError};
pub use source::{RawFd, Source};
pub use sources::{Event, Sources};
pub use timeout::Timeout;
