use popol::interest;
use popol::{Event, OsErrorKind, PollAction, PollError, Sources, Timeout};

/// The keys of the events that the registry reports after the given
/// per-source readiness.
fn ready_keys<K: Clone + PartialEq>(sources: &mut Sources<K>, revents: &[i16]) -> Vec<K> {
    sources.record_revents(revents);
    sources.ready_events().into_iter().map(|e| e.key).collect()
}

#[test]
fn test_empty() {
    let sources: Sources<()> = Sources::new();
    let timeout = Timeout::from_millis(1);

    assert_eq!(sources.poll_start(&timeout), PollAction::Return(Ok(0)));
    let events: Vec<Event<()>> = sources.ready_events();
    assert!(events.is_empty());
}

#[test]
fn test_timeout() {
    let mut sources = Sources::new();
    sources.register((), 1, interest::READ);
    let timeout = Timeout::from_millis(1);

    assert_eq!(sources.poll_start(&timeout), PollAction::Wait(1));
    let events = sources.ready_events();
    let action = sources.poll_continue(&timeout, 0, OsErrorKind::Other);

    assert_eq!(sources.len(), 1);
    assert_eq!(action, PollAction::Return(Err(PollError::TimedOut)));
    assert!(events.is_empty());
}

#[test]
fn readable_source_is_the_only_event() {
    let mut sources = Sources::new();
    sources.register("reader0", 10, interest::READ);
    sources.register("reader1", 11, interest::READ);
    sources.register("reader2", 12, interest::READ);

    assert!(ready_keys(&mut sources, &[0, 0, 0]).is_empty());
    assert_eq!(
        sources.poll_continue(&Timeout::from_millis(1), 0, OsErrorKind::Other),
        PollAction::Return(Err(PollError::TimedOut))
    );

    let cases: [(usize, &str); 3] = [(0, "reader0"), (1, "reader1"), (2, "reader2")];
    for (ix, key) in cases.iter() {
        let mut revents = [0i16; 3];
        revents[*ix] = libc::POLLIN;
        sources.record_revents(&revents);
        let events = sources.ready_events();
        assert_eq!(events.len(), 1);
        let event = &events[0];
        assert_eq!(&event.key, key);
        assert!(event.is_readable() && !event.is_writable() && !event.is_error() && !event.is_hangup());
        assert_eq!(sources.poll_continue(&Timeout::from_millis(1), 1, OsErrorKind::Other), PollAction::Return(Ok(1)));
    }
}

#[test]
fn unregistered_sources_report_nothing() {
    let mut sources = Sources::new();
    sources.register("reader0", 10, interest::READ);
    sources.register("reader1", 11, interest::READ);
    sources.register("reader2", 12, interest::READ);

    assert_eq!(ready_keys(&mut sources, &[0, libc::POLLIN, 0]), vec!["reader1"]);

    sources.unregister(&"reader1");
    assert_eq!(sources.len(), 2);
    assert!(sources.get(&"reader1").is_none());
    let keys = ready_keys(&mut sources, &[libc::POLLIN, libc::POLLIN]);
    assert!(keys.contains(&"reader0"));
    assert!(!keys.contains(&"reader1"));
    assert!(keys.contains(&"reader2"));

    sources.unregister(&"reader0");
    let keys = ready_keys(&mut sources, &[libc::POLLIN]);
    assert_eq!(keys, vec!["reader2"]);

    sources.unregister(&"reader2");
    assert!(sources.is_empty());
    assert!(sources.ready_events().is_empty());
    assert_eq!(sources.poll_start(&Timeout::from_millis(1)), PollAction::Return(Ok(0)));

    sources.register("reader0", 10, interest::READ);
    assert_eq!(ready_keys(&mut sources, &[libc::POLLIN]), vec!["reader0"]);
}

#[test]
fn unregister_unknown_key_changes_nothing() {
    let mut sources = Sources::new();
    sources.register(1u32, 10, interest::READ);
    sources.unregister(&7);
    assert_eq!(sources.len(), 1);
    assert_eq!(sources.get(&1).map(|s| s.as_raw_fd()), Some(10));
}

#[test]
fn unregister_moves_last_source_into_the_gap() {
    let mut sources = Sources::new();
    sources.register('a', 10, interest::READ);
    sources.register('b', 11, interest::WRITE);
    sources.register('c', 12, interest::ALL);
    sources.unregister(&'a');
    assert_eq!(sources.poll_fds(), vec![(12, interest::ALL), (11, interest::WRITE)]);
    assert_eq!(sources.get(&'c').map(|s| s.as_raw_fd()), Some(12));
    assert_eq!(sources.get(&'b').map(|s| s.as_raw_fd()), Some(11));
}

#[test]
fn set_and_unset_interests() {
    let mut sources = Sources::new();
    sources.register("reader0", 10, interest::READ);
    sources.register("reader1", 11, interest::NONE);
    assert_eq!(sources.poll_fds(), vec![(10, interest::READ), (11, interest::NONE)]);

    assert!(sources.unset(&"reader0", interest::READ));
    assert_eq!(sources.poll_fds(), vec![(10, interest::NONE), (11, interest::NONE)]);

    assert!(sources.set(&"reader1", interest::READ));
    assert_eq!(sources.poll_fds(), vec![(10, interest::NONE), (11, interest::READ)]);

    assert!(!sources.set(&"reader2", interest::READ));
    assert!(!sources.unset(&"reader2", interest::READ));
    assert_eq!(sources.poll_fds(), vec![(10, interest::NONE), (11, interest::READ)]);
}

#[test]
fn set_then_unset_restores_interest() {
    let mut sources = Sources::new();
    sources.register(0u8, 3, interest::READ);
    assert!(sources.set(&0, interest::WRITE));
    assert_eq!(sources.poll_fds(), vec![(3, interest::ALL)]);
    assert!(sources.unset(&0, interest::WRITE));
    assert_eq!(sources.poll_fds(), vec![(3, interest::READ)]);
}

#[test]
fn get_mut_changes_the_registered_source() {
    let mut sources = Sources::new();
    sources.register(5u64, 20, interest::NONE);
    sources.get_mut(&5).unwrap().set(interest::WRITE);
    assert_eq!(sources.poll_fds(), vec![(20, interest::WRITE)]);
    assert!(sources.get_mut(&6).is_none());
    assert_eq!(sources.get(&5).map(|s| s.raw_events()), Some(0));
}

#[test]
fn first_registration_of_a_key_shadows_later_ones() {
    let mut sources = Sources::new();
    sources.register("k", 1, interest::READ);
    sources.register("k", 2, interest::WRITE);
    assert_eq!(sources.get(&"k").map(|s| s.as_raw_fd()), Some(1));
    sources.unregister(&"k");
    assert_eq!(sources.get(&"k").map(|s| s.as_raw_fd()), Some(2));
}

#[test]
fn from_iter_registers_in_order() {
    let sources = Sources::from_iter(vec![("x", 4, interest::READ), ("y", 5, interest::WRITE)]);
    assert_eq!(sources.len(), 2);
    assert_eq!(sources.poll_fds(), vec![(4, interest::READ), (5, interest::WRITE)]);
}

#[test]
fn with_capacity_starts_empty() {
    let sources: Sources<u8> = Sources::with_capacity(16);
    assert!(sources.is_empty());
    assert_eq!(sources.len(), 0);
}

#[test]
fn ready_events_follow_registry_order_and_skip_quiet_sources() {
    let mut sources = Sources::new();
    for (key, fd) in [(1u16, 30), (2, 31), (3, 32), (4, 33)] {
        sources.register(key, fd, interest::ALL);
    }
    sources.record_revents(&[libc::POLLOUT, 0, libc::POLLHUP, libc::POLLIN | libc::POLLERR]);
    let events = sources.ready_events();
    let keys: Vec<u16> = events.iter().map(|e| e.key).collect();
    assert_eq!(keys, vec![1, 3, 4]);
    assert!(events[0].is_writable() && !events[0].is_readable());
    assert!(events[1].is_hangup() && !events[1].is_error());
    assert!(events[2].is_readable() && events[2].is_error() && !events[2].is_invalid());
    assert_eq!(events[1].source.as_raw_fd(), 32);
    assert_eq!(events[2].raw_events(), libc::POLLIN | libc::POLLERR);
}

#[test]
fn invalid_descriptor_is_reported() {
    let mut sources = Sources::new();
    sources.register((), -1, interest::READ);
    sources.record_revents(&[libc::POLLNVAL]);
    let events = sources.ready_events();
    assert_eq!(events.len(), 1);
    assert!(events[0].is_invalid() && !events[0].is_readable());
}

#[test]
fn poll_results_are_interpreted() {
    let mut sources = Sources::new();
    sources.register((), 0, interest::READ);
    let t = Timeout::from_millis(250);
    assert_eq!(sources.poll_continue(&t, 3, OsErrorKind::Other), PollAction::Return(Ok(3)));
    assert_eq!(sources.poll_continue(&t, 0, OsErrorKind::Other), PollAction::Return(Err(PollError::TimedOut)));
    assert_eq!(sources.poll_continue(&t, -1, OsErrorKind::Interrupted), PollAction::Wait(250));
    assert_eq!(sources.poll_continue(&t, -1, OsErrorKind::WouldBlock), PollAction::Wait(250));
    assert_eq!(sources.poll_continue(&t, -1, OsErrorKind::Other), PollAction::Return(Err(PollError::Os)));
    assert_eq!(sources.poll_continue(&Timeout::Never, -1, OsErrorKind::Interrupted), PollAction::Wait(-1));

    let empty: Sources<()> = Sources::new();
    assert_eq!(empty.poll_continue(&t, 0, OsErrorKind::Other), PollAction::Return(Ok(0)));
}

#[test]
fn set_twice_is_set_of_both() {
    let mut a = Sources::new();
    a.register(1u8, 7, interest::NONE);
    let mut b = a.clone();
    assert!(a.set(&1, interest::POLLIN));
    assert!(a.set(&1, interest::POLLOUT));
    assert!(b.set(&1, interest::POLLIN | interest::POLLOUT));
    assert_eq!(a.poll_fds(), b.poll_fds());
    assert!(a.set(&1, interest::POLLOUT));
    assert_eq!(a.poll_fds(), b.poll_fds());
}

#[test]
fn unset_undoes_set_of_new_interest() {
    let mut sources = Sources::new();
    sources.register(9u32, 3, interest::READ);
    let before = sources.poll_fds();
    assert!(sources.set(&9, interest::WRITE));
    assert!(sources.unset(&9, interest::WRITE));
    assert_eq!(sources.poll_fds(), before);
}

#[test]
fn unregister_undoes_register() {
    let mut sources = Sources::new();
    sources.register(1u32, 10, interest::READ);
    sources.register(2u32, 11, interest::WRITE);
    let before = sources.poll_fds();
    sources.register(3u32, 12, interest::ALL);
    sources.unregister(&3);
    assert_eq!(sources.poll_fds(), before);
    assert!(sources.get(&3).is_none());
    sources.register(3u32, 12, interest::ALL);
    assert_eq!(sources.get(&3).map(|s| s.as_raw_fd()), Some(12));
}

#[test]
fn unregistered_key_is_never_reported() {
    let mut sources = Sources::new();
    sources.register("a", 10, interest::READ);
    sources.register("b", 11, interest::READ);
    sources.unregister(&"a");
    sources.record_revents(&[libc::POLLIN]);
    let events = sources.ready_events();
    assert!(events.iter().all(|e| e.key != "a"));
    assert_eq!(events.len(), 1);
}
