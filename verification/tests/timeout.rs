use popol::Timeout;
use std::time::Duration;

#[test]
fn from_secs_is_whole_milliseconds() {
    assert_eq!(Timeout::from_secs(6).poll_millis(), 6000);
    assert_eq!(Timeout::from_secs(0).poll_millis(), 0);
}

#[test]
fn from_millis_is_kept() {
    assert_eq!(Timeout::from_millis(1).poll_millis(), 1);
    assert_eq!(Timeout::from_millis(64).poll_millis(), 64);
}

#[test]
fn never_waits_forever() {
    assert_eq!(Timeout::Never.poll_millis(), -1);
    assert_eq!(Timeout::from(None::<Duration>).poll_millis(), -1);
}

#[test]
fn long_timeouts_are_clipped() {
    assert_eq!(Timeout::from_secs(u32::MAX).poll_millis(), i32::MAX);
    assert_eq!(Timeout::from_millis(u32::MAX).poll_millis(), i32::MAX);
    assert_eq!(Timeout::from(Duration::from_secs(u64::MAX)).poll_millis(), i32::MAX);
    assert_eq!(Timeout::from_millis(i32::MAX as u32).poll_millis(), i32::MAX);
    assert_eq!(Timeout::from_secs(2_147_484).poll_millis(), i32::MAX);
    assert_eq!(Timeout::from_secs(2_147_483).poll_millis(), 2_147_483_000);
}

#[test]
fn partial_milliseconds_are_dropped() {
    assert_eq!(Timeout::from(Duration::from_micros(1500)).poll_millis(), 1);
    assert_eq!(Timeout::from(Some(Duration::from_nanos(999_999))).poll_millis(), 0);
}

#[test]
fn from_duration_keeps_it() {
    match Timeout::from(Duration::from_millis(42)) {
        Timeout::After(d) => assert_eq!(d, Duration::from_millis(42)),
        Timeout::Never => panic!("a duration gives a finite timeout"),
    }
    match Timeout::from_secs(3).clone() {
        Timeout::After(d) => assert_eq!(d, Duration::from_secs(3)),
        Timeout::Never => panic!("from_secs gives a finite timeout"),
    }
}

#[test]
fn constructed_durations_are_exact() {
    match Timeout::from_secs(7) {
        Timeout::After(d) => assert_eq!((d.as_secs(), d.subsec_nanos()), (7, 0)),
        Timeout::Never => panic!("from_secs gives a finite timeout"),
    }
    match Timeout::from_millis(1234) {
        Timeout::After(d) => assert_eq!((d.as_secs(), d.subsec_nanos()), (1, 234_000_000)),
        Timeout::Never => panic!("from_millis gives a finite timeout"),
    }
}
