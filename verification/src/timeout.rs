//! Optional timeout of a wait, and its conversion to the millisecond
//! argument of `poll(2)`.

use std::time::Duration;
use vstd::prelude::*;
use vstd::std_specs::convert::FromSpec;

verus! {

/// The total number of nanoseconds a duration holds, as
/// `Duration::as_nanos` returns it. A duration is its whole seconds and its
/// sub-second nanoseconds, so this number determines it.
pub uninterp spec fn duration_nanos(d: Duration) -> nat;

/// The whole seconds of a duration (`Duration::as_secs`).
pub open spec fn duration_secs(d: Duration) -> nat {
    duration_nanos(d) / 1_000_000_000
}

/// The fractional part of a duration, in nanoseconds (`Duration::subsec_nanos`).
pub open spec fn duration_subsec_nanos(d: Duration) -> nat {
    duration_nanos(d) % 1_000_000_000
}

/// The whole number of milliseconds contained by a duration
/// (`Duration::as_millis`).
pub open spec fn duration_millis(d: Duration) -> nat {
    duration_nanos(d) / 1_000_000
}

/// Calls `Duration::as_millis`; trusted, as std documents, to return the
/// whole milliseconds of the duration: its total nanoseconds divided by a
/// million.
#[verifier::external_body]
fn duration_as_millis(d: &Duration) -> (millis: u128)
    ensures
        millis == duration_nanos(*d) / 1_000_000,
{
    d.as_millis()
}

/// Calls `Duration::from_secs`; trusted, as std documents, to make a
/// duration of exactly `secs` seconds, with no fractional part.
#[verifier::external_body]
fn duration_from_secs(secs: u64) -> (d: Duration)
    ensures
        duration_nanos(d) == secs * 1_000_000_000,
{
    Duration::from_secs(secs)
}

/// Calls `Duration::from_millis`; trusted, as std documents, to make a
/// duration of exactly `millis` milliseconds.
#[verifier::external_body]
fn duration_from_millis(millis: u64) -> (d: Duration)
    ensures
        duration_nanos(d) == millis * 1_000_000,
{
    Duration::from_millis(millis)
}

/// `Duration` is `Copy`; its `clone` is trusted to return the value it is
/// given, as for every `Copy` type.
pub assume_specification[ <Duration as Clone>::clone ](d: &Duration) -> (r: Duration)
    ensures
        r == *d,
;

/// Optional timeout.
///
/// Note that the maximum timeout is `i32::MAX` milliseconds (about 25 days). Longer
/// timeouts will be silently clipped to `i32::MAX` milliseconds.
#[derive(Debug, Clone)]
pub enum Timeout {
    /// Timeout after a specific duration.
    After(Duration),
    /// Never timeout.
    Never,
}

/// The millisecond timeout that `poll(2)` is given for `t`: the duration's
/// whole milliseconds, clipped to `i32::MAX`, or `-1` to wait forever.
pub open spec fn poll_millis_of(t: Timeout) -> int {
    match t {
        Timeout::After(d) => if duration_millis(d) > i32::MAX {
            i32::MAX as int
        } else {
            duration_millis(d) as int
        },
        Timeout::Never => -1,
    }
}

/// A timeout is never longer than `i32::MAX` milliseconds and waits
/// forever (`-1`) only when it is [`Timeout::Never`]; a duration that fits
/// is kept to the millisecond, and a longer one is clipped.
pub proof fn lemma_poll_millis_clipped(t: Timeout)
    ensures
        -1 <= poll_millis_of(t) <= i32::MAX,
        poll_millis_of(t) == -1 <==> t is Never,
        t matches Timeout::After(d) ==> (duration_millis(d) <= i32::MAX ==> poll_millis_of(t) == duration_millis(d)),
        t matches Timeout::After(d) ==> (duration_millis(d) > i32::MAX ==> poll_millis_of(t) == i32::MAX),
{
}

impl Timeout {
    /// Create a timeout with the specified number of seconds.
    ///
    /// See [`Timeout`] for an important note about the maximum timeout.
    pub fn from_secs(seconds: u32) -> (t: Self)
        ensures
            t matches Timeout::After(d) && duration_nanos(d) == seconds * 1_000_000_000,
            t matches Timeout::After(d) && duration_secs(d) == seconds && duration_subsec_nanos(d) == 0,
            t matches Timeout::After(d) && duration_millis(d) == seconds * 1000,
    {
        Timeout::After(duration_from_secs(seconds as u64))
    }

    /// Create a timeout with the specified number of milliseconds.
    ///
    /// See [`Timeout`] for an important note about the maximum timeout.
    pub fn from_millis(milliseconds: u32) -> (t: Self)
        ensures
            t matches Timeout::After(d) && duration_nanos(d) == milliseconds * 1_000_000,
            t matches Timeout::After(d) && duration_secs(d) == milliseconds / 1000
                && duration_subsec_nanos(d) == (milliseconds % 1000) * 1_000_000,
            t matches Timeout::After(d) && duration_millis(d) == milliseconds,
    {
        Timeout::After(duration_from_millis(milliseconds as u64))
    }

    /// The timeout argument of `poll(2)`: whole milliseconds, clipped to
    /// `i32::MAX`; `-1` for [`Timeout::Never`].
    pub fn poll_millis(&self) -> (millis: i32)
        ensures
            millis == poll_millis_of(*self),
            -1 <= millis,
    {
        match self {
            Timeout::After(d) => {
                let ms = duration_as_millis(d);
                if ms > i32::MAX as u128 {
                    i32::MAX
                } else {
                    ms as i32
                }
            },
            Timeout::Never => -1,
        }
    }
}

impl From<Duration> for Timeout {
    /// Create a timeout from a duration.
    ///
    /// See [`Timeout`] for an important note about the maximum timeout.
    fn from(duration: Duration) -> (t: Self)
        ensures
            t == Timeout::After(duration),
            poll_millis_of(t) != -1,
    {
        Timeout::After(duration)
    }
}

impl vstd::std_specs::convert::FromSpecImpl<Duration> for Timeout {
    open spec fn obeys_from_spec() -> bool {
        true
    }

    open spec fn from_spec(v: Duration) -> Self {
        Timeout::After(v)
    }
}

impl From<Option<Duration>> for Timeout {
    /// Create a timeout from an optional duration.
    ///
    /// See [`Timeout`] for an important note about the maximum timeout.
    fn from(duration: Option<Duration>) -> (t: Self)
        ensures
            match duration {
                Some(d) => t == Timeout::After(d),
                None => t == Timeout::Never,
            },
            poll_millis_of(t) == -1 <==> duration is None,
    {
        match duration {
            Some(duration) => Self::from(duration),
            None => Timeout::Never,
        }
    }
}

impl vstd::std_specs::convert::FromSpecImpl<Option<Duration>> for Timeout {
    open spec fn obeys_from_spec() -> bool {
        true
    }

    open spec fn from_spec(v: Option<Duration>) -> Self {
        match v {
            Some(d) => Timeout::After(d),
            None => Timeout::Never,
        }
    }
}

/// A duration always gives a finite timeout holding exactly that duration,
/// whose `poll(2)` argument is its whole milliseconds clipped to
/// `i32::MAX` and never `-1`; an optional duration gives the same when it is
/// present, and no timeout when it is absent.
pub proof fn lemma_timeout_from_duration(d: Duration)
    ensures
        <Timeout as FromSpec<Duration>>::from_spec(d) == Timeout::After(d),
        <Timeout as FromSpec<Option<Duration>>>::from_spec(Some(d)) == Timeout::After(d),
        <Timeout as FromSpec<Option<Duration>>>::from_spec(None) == Timeout::Never,
        <Timeout as FromSpec<Duration>>::obeys_from_spec(),
        <Timeout as FromSpec<Option<Duration>>>::obeys_from_spec(),
        0 <= poll_millis_of(<Timeout as FromSpec<Duration>>::from_spec(d)) <= i32::MAX,
        duration_millis(d) <= i32::MAX ==> poll_millis_of(<Timeout as FromSpec<Duration>>::from_spec(d))
            == duration_millis(d),
        poll_millis_of(<Timeout as FromSpec<Option<Duration>>>::from_spec(Some(d)))
            == poll_millis_of(<Timeout as FromSpec<Duration>>::from_spec(d)),
{
}

} // verus!
