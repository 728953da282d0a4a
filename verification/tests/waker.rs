use popol::nonblocking::nonblocking_flags;
use popol::waker::{drain_action, wake_action, DrainAction, WakeAction, WriteOutcome};

#[test]
fn wake_decisions() {
    assert_eq!(wake_action(WriteOutcome::Written), WakeAction::Done);
    assert_eq!(wake_action(WriteOutcome::WouldBlock), WakeAction::DrainThenRetry);
    assert_eq!(wake_action(WriteOutcome::Interrupted), WakeAction::Retry);
    assert_eq!(wake_action(WriteOutcome::Failed), WakeAction::Fail);
}

#[test]
fn drain_decisions() {
    assert_eq!(drain_action(4096, false), DrainAction::ReadAgain);
    assert_eq!(drain_action(1, false), DrainAction::ReadAgain);
    assert_eq!(drain_action(0, false), DrainAction::Done);
    assert_eq!(drain_action(-1, true), DrainAction::Done);
    assert_eq!(drain_action(-1, false), DrainAction::Fail);
}

#[test]
fn nonblocking_flags_switch_only_that_flag() {
    let flags = libc::O_RDWR | libc::O_APPEND;
    let on = nonblocking_flags(flags, libc::O_NONBLOCK, true);
    assert_eq!(on, flags | libc::O_NONBLOCK);
    assert_eq!(nonblocking_flags(on, libc::O_NONBLOCK, false), flags);
    assert_eq!(nonblocking_flags(on, libc::O_NONBLOCK, true), on);
    assert_eq!(nonblocking_flags(flags, libc::O_NONBLOCK, false), flags);
    assert_eq!(nonblocking_flags(0x7, 0x4, false), 0x3);
}
