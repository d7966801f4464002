//! Time as the timers see it: spans of time and wall-clock stamps held as
//! plain integers, and the few calls that read the machine's clocks.

use chrono::{DateTime, Utc};
use std::time::{Instant, SystemTime, SystemTimeError, UNIX_EPOCH};
use vstd::prelude::*;

verus! {

/// Nanoseconds in one second.
pub const NANOS_PER_SEC: u128 = 1_000_000_000;

/// Nanoseconds in one millisecond.
pub const NANOS_PER_MILLI: u128 = 1_000_000;

/// The longest span that std's `Duration` can hold (`u64::MAX` seconds and
/// 999 999 999 nanoseconds), in nanoseconds.
pub const MAX_SPAN_NANOS: u128 = 18_446_744_073_709_551_615_999_999_999;

/// The earliest second, counted from the Unix epoch, that chrono can render
/// in UTC (1 January of the year -262143, midnight).
pub const MIN_UTC_SECS: i64 = -8_334_601_228_800;

/// The last second, counted from the Unix epoch, that chrono can render in
/// UTC (31 December of the year 262142, 23:59:59).
pub const MAX_UTC_SECS: i64 = 8_210_266_876_799;

#[verifier::external_type_specification]
#[verifier::external_body]
pub struct ExInstant(Instant);

#[verifier::external_type_specification]
#[verifier::external_body]
pub struct ExSystemTime(SystemTime);

#[verifier::external_type_specification]
#[verifier::external_body]
pub struct ExSystemTimeError(SystemTimeError);

/// The nanoseconds of `ms` milliseconds.
pub open spec fn millis_to_nanos(ms: nat) -> nat {
    ms * 1_000_000
}

/// The whole milliseconds in `nanos` nanoseconds, rounded down.
pub open spec fn nanos_to_millis(nanos: nat) -> nat {
    nanos / 1_000_000
}

/// The whole seconds in `nanos` nanoseconds, rounded down.
pub open spec fn nanos_to_secs(nanos: nat) -> nat {
    nanos / 1_000_000_000
}

/// A span of time, counted in nanoseconds. Its view is that count; it never
/// exceeds `MAX_SPAN_NANOS`, the range of std's `Duration`.
#[derive(Clone, Copy, Debug, PartialEq, Eq)]
pub struct Span {
    nanos: u128,
}

impl Span {
    #[verifier::type_invariant]
    spec fn within_range(self) -> bool {
        self.nanos <= MAX_SPAN_NANOS
    }
}

impl View for Span {
    type V = nat;

    closed spec fn view(&self) -> nat {
        self.nanos as nat
    }
}

impl Span {
    /// The empty span.
    pub fn zero() -> (s: Span)
        ensures
            s@ == 0,
    {
        Span { nanos: 0 }
    }

    /// `secs` seconds and `nanos` nanoseconds; nanoseconds beyond a second
    /// carry into the seconds, as `Duration::new` does. Where that carry would
    /// leave the range of a `Duration` (there `Duration::new` panics), the
    /// span is not made.
    pub fn new(secs: u64, nanos: u32) -> (s: Span)
        requires
            secs * NANOS_PER_SEC + nanos <= MAX_SPAN_NANOS,
        ensures
            s@ == secs * NANOS_PER_SEC + nanos,
    {
        Span { nanos: secs as u128 * NANOS_PER_SEC + nanos as u128 }
    }

    /// `ms` milliseconds, as `Duration::from_millis` makes them.
    pub fn from_millis(ms: u64) -> (s: Span)
        ensures
            s@ == millis_to_nanos(ms as nat),
    {
        Span { nanos: ms as u128 * NANOS_PER_MILLI }
    }

    /// `nanos` nanoseconds, which must lie in the range of a `Duration`.
    pub fn from_nanos(nanos: u128) -> (s: Span)
        requires
            nanos <= MAX_SPAN_NANOS,
        ensures
            s@ == nanos,
    {
        Span { nanos }
    }

    /// The longest span.
    pub fn max() -> (s: Span)
        ensures
            s@ == MAX_SPAN_NANOS,
    {
        Span { nanos: MAX_SPAN_NANOS }
    }

    /// The whole span in nanoseconds.
    pub fn as_nanos(&self) -> (n: u128)
        ensures
            n == self@,
            n <= MAX_SPAN_NANOS,
    {
        proof {
            use_type_invariant(self);
        }
        self.nanos
    }

    /// The whole milliseconds of the span, as `Duration::as_millis` gives them.
    pub fn as_millis(&self) -> (ms: u128)
        ensures
            ms == nanos_to_millis(self@),
    {
        self.nanos / NANOS_PER_MILLI
    }

    /// The whole seconds of the span, as `Duration::as_secs` gives them.
    pub fn as_secs(&self) -> (secs: u64)
        ensures
            secs == nanos_to_secs(self@),
    {
        proof {
            use_type_invariant(self);
        }
        (self.nanos / NANOS_PER_SEC) as u64
    }

    /// Whether this span is at least as long as `other` (`>=` on `Duration`).
    pub fn is_at_least(&self, other: &Span) -> (b: bool)
        ensures
            b == (self@ >= other@),
    {
        self.nanos >= other.nanos
    }

    /// The sum of two spans, or `None` where it leaves the range of a
    /// `Duration` (as `Duration::checked_add` answers).
    pub fn checked_add(&self, other: &Span) -> (s: Option<Span>)
        ensures
            s is Some <==> self@ + other@ <= MAX_SPAN_NANOS,
            s matches Some(sum) ==> sum@ == self@ + other@,
    {
        proof {
            use_type_invariant(self);
            use_type_invariant(other);
        }
        let total = self.nanos + other.nanos;
        if total <= MAX_SPAN_NANOS {
            Some(Span { nanos: total })
        } else {
            None
        }
    }

    /// What is left between this span and the longest one.
    pub fn headroom(&self) -> (s: Span)
        ensures
            s@ == MAX_SPAN_NANOS - self@,
    {
        proof {
            use_type_invariant(self);
        }
        Span { nanos: MAX_SPAN_NANOS - self.nanos }
    }
}

/// Whether chrono can render the instant `secs` seconds and `nanos`
/// nanoseconds after the Unix epoch, in UTC, without a leap second.
pub open spec fn utc_representable(secs: int, nanos: int) -> bool {
    &&& 0 <= nanos < NANOS_PER_SEC
    &&& MIN_UTC_SECS <= secs <= MAX_UTC_SECS
}

/// The whole seconds, rounded down, of a wall time `stamp` nanoseconds after
/// the Unix epoch (negative before it).
pub open spec fn stamp_secs(stamp: int) -> int {
    stamp / 1_000_000_000
}

/// The nanoseconds past the whole second of the wall time `stamp`.
pub open spec fn stamp_subsec(stamp: int) -> int {
    stamp % 1_000_000_000
}

/// Whether chrono can render the wall time `stamp` in UTC.
pub open spec fn renderable(stamp: int) -> bool {
    MIN_UTC_SECS <= stamp_secs(stamp) <= MAX_UTC_SECS
}

/// The RFC 3339 text of the wall time `stamp`, where chrono can render it.
pub open spec fn rfc3339_of(stamp: int) -> Option<Seq<char>> {
    if renderable(stamp) {
        Some(rfc3339_text(stamp_secs(stamp) as i64, stamp_subsec(stamp) as u32))
    } else {
        None
    }
}

/// A wall-clock time: the nanoseconds from the Unix epoch to it, negative
/// before the epoch, within the range of a span either way (which holds every
/// time the system clock can show). The Unix epoch itself stands for "not
/// set" in a timer. Its view is that count of nanoseconds.
#[derive(Clone, Copy, Debug, PartialEq, Eq)]
pub struct WallTime {
    nanos: i128,
}

impl WallTime {
    #[verifier::type_invariant]
    spec fn within_range(self) -> bool {
        -MAX_SPAN_NANOS <= self.nanos <= MAX_SPAN_NANOS
    }
}

impl View for WallTime {
    type V = int;

    closed spec fn view(&self) -> int {
        self.nanos as int
    }
}

/// The view of the Unix epoch.
pub open spec fn unix_epoch_view() -> int {
    0
}

/// Splits the wall time `stamp` into its whole seconds, rounded down, and the
/// nanoseconds past them.
fn split_stamp(stamp: i128) -> (parts: (i128, u32))
    requires
        -MAX_SPAN_NANOS <= stamp <= MAX_SPAN_NANOS,
    ensures
        parts.0 == stamp_secs(stamp as int),
        parts.1 == stamp_subsec(stamp as int),
{
    if stamp >= 0 {
        let m = stamp as u128;
        let secs = (m / NANOS_PER_SEC) as i128;
        let sub = (m % NANOS_PER_SEC) as u32;
        proof {
            vstd::arithmetic::div_mod::lemma_fundamental_div_mod_converse(
                stamp as int,
                1_000_000_000,
                secs as int,
                sub as int,
            );
        }
        (secs, sub)
    } else {
        let m = (-stamp) as u128;
        let q = m / NANOS_PER_SEC;
        let rem = m % NANOS_PER_SEC;
        if rem == 0 {
            let secs = -(q as i128);
            proof {
                vstd::arithmetic::div_mod::lemma_fundamental_div_mod_converse(
                    stamp as int,
                    1_000_000_000,
                    secs as int,
                    0,
                );
            }
            (secs, 0)
        } else {
            let secs = -(q as i128) - 1;
            let sub = (NANOS_PER_SEC - rem) as u32;
            proof {
                vstd::arithmetic::div_mod::lemma_fundamental_div_mod_converse(
                    stamp as int,
                    1_000_000_000,
                    secs as int,
                    sub as int,
                );
            }
            (secs, sub)
        }
    }
}

impl WallTime {
    /// The Unix epoch, 1970-01-01T00:00:00 UTC.
    pub fn unix_epoch() -> (t: WallTime)
        ensures
            t@ == unix_epoch_view(),
    {
        WallTime { nanos: 0 }
    }

    /// The time `secs` seconds and `nanos` nanoseconds after the Unix epoch,
    /// where `nanos` is below one second; `None` elsewhere.
    pub fn from_timestamp(secs: i64, nanos: u32) -> (t: Option<WallTime>)
        ensures
            t is Some <==> nanos < NANOS_PER_SEC,
            t matches Some(w) ==> w@ == secs * 1_000_000_000 + nanos,
    {
        if nanos < 1_000_000_000 {
            Some(WallTime { nanos: secs as i128 * 1_000_000_000 + nanos as i128 })
        } else {
            None
        }
    }

    /// Whole seconds since the Unix epoch, rounded down.
    pub fn secs(&self) -> (s: i128)
        ensures
            s == stamp_secs(self@),
    {
        proof {
            use_type_invariant(self);
        }
        split_stamp(self.nanos).0
    }

    /// Nanoseconds past the whole second.
    pub fn subsec_nanos(&self) -> (n: u32)
        ensures
            n == stamp_subsec(self@),
    {
        proof {
            use_type_invariant(self);
        }
        split_stamp(self.nanos).1
    }

    /// Whether this is the Unix epoch.
    pub fn is_unix_epoch(&self) -> (b: bool)
        ensures
            b == (self@ == unix_epoch_view()),
    {
        self.nanos == 0
    }

    /// The time in RFC 3339 form, as chrono writes a `DateTime<Utc>`, where
    /// chrono can render it; `None` elsewhere.
    pub fn to_rfc3339(&self) -> (s: Option<String>)
        ensures
            s is Some <==> renderable(self@),
            s matches Some(text) ==> rfc3339_of(self@) == Some(text@),
    {
        proof {
            use_type_invariant(self);
        }
        let (secs, sub) = split_stamp(self.nanos);
        if MIN_UTC_SECS as i128 <= secs && secs <= MAX_UTC_SECS as i128 {
            Some(rfc3339_utc(secs as i64, sub))
        } else {
            None
        }
    }
}

/// What the clocks read at one moment, for one timer: the monotonic instant,
/// the wall-clock time, and the span from the timer's `interval_start` to
/// that instant.
pub struct Reading {
    pub instant: Instant,
    pub wall: WallTime,
    pub since_interval_start: Span,
}

/// The view of a `Reading`.
pub struct ReadingView {
    pub instant: Instant,
    pub wall: int,
    pub since: nat,
}

impl View for Reading {
    type V = ReadingView;

    open spec fn view(&self) -> ReadingView {
        ReadingView {
            instant: self.instant,
            wall: self.wall@,
            since: self.since_interval_start@,
        }
    }
}

/// `r` is a reading that `read_clock` gives when it measures from `start`:
/// the clocks read at one moment, and the span from `start` to that moment's
/// monotonic instant.
pub open spec fn clock_gave(start: Instant, r: Reading) -> bool {
    call_ensures(read_clock, (&start,), r)
}

/// `i` is an instant that `monotonic_now` gives: the monotonic clock read at
/// one moment.
pub open spec fn clock_read(i: Instant) -> bool {
    call_ensures(monotonic_now, (), i)
}

/// The reading `r` with its span cut where it would carry `elapsed` past the
/// longest span.
pub open spec fn capped(r: ReadingView, elapsed: nat) -> ReadingView {
    ReadingView {
        since: if elapsed + r.since <= MAX_SPAN_NANOS {
            r.since
        } else {
            (MAX_SPAN_NANOS - elapsed) as nat
        },
        ..r
    }
}

/// Reads both clocks now, and measures the span from `interval_start` to the
/// monotonic reading. What the clocks answer depends on the time: nothing is
/// stated of the reading beyond the ranges its types hold.
pub fn read_clock(interval_start: &Instant) -> Reading {
    let instant = instant_now();
    let gap = duration_since(&instant, interval_start);
    let since = Span::from_nanos(duration_nanos(&gap));
    let wall = wall_clock_now();
    Reading { instant, wall, since_interval_start: since }
}

/// Reads the wall clock now, as the nanoseconds from the Unix epoch to it.
fn wall_clock_now() -> WallTime {
    let now = system_time_now();
    match since_unix_epoch(&now) {
        Ok(after) => WallTime { nanos: duration_nanos(&after) as i128 },
        Err(e) => WallTime { nanos: -(duration_nanos(&error_duration(&e)) as i128) },
    }
}

/// Reads the monotonic clock now.
pub fn monotonic_now() -> Instant {
    instant_now()
}

/// Calls `std::time::Instant::now`. The reading depends on the time, so
/// nothing is promised of it.
#[verifier::external_body]
fn instant_now() -> Instant {
    Instant::now()
}

/// Calls `std::time::Instant::duration_since`: the time from `earlier` to
/// `later`, zero where `later` comes first. Both instants are opaque here, so
/// no clause states the result.
#[verifier::external_body]
fn duration_since(later: &Instant, earlier: &Instant) -> std::time::Duration {
    later.duration_since(*earlier)
}

/// Calls `std::time::Duration::as_nanos`: the whole duration in nanoseconds,
/// which is never more than the nanoseconds of `Duration::MAX`. The duration
/// is opaque here, so no clause ties the count to it.
#[verifier::external_body]
fn duration_nanos(d: &std::time::Duration) -> (n: u128)
    ensures
        n <= MAX_SPAN_NANOS,
{
    d.as_nanos()
}

/// Calls `std::time::SystemTime::now`. The reading depends on the time, so
/// nothing is promised of it.
#[verifier::external_body]
fn system_time_now() -> SystemTime {
    SystemTime::now()
}

/// Calls `std::time::SystemTime::duration_since` with the Unix epoch: the
/// time from the epoch to `t`, or, where `t` lies before the epoch, an error
/// that holds the time from `t` to the epoch. Both are opaque here, so no
/// clause states them.
#[verifier::external_body]
fn since_unix_epoch(t: &SystemTime) -> Result<std::time::Duration, SystemTimeError> {
    t.duration_since(UNIX_EPOCH)
}

/// Calls `std::time::SystemTimeError::duration`: how far the later time lay
/// past the earlier one. It is opaque here, so no clause states it.
#[verifier::external_body]
fn error_duration(e: &SystemTimeError) -> std::time::Duration {
    e.duration()
}

/// The text that chrono's `DateTime::to_rfc3339` writes for the UTC instant
/// `secs` seconds and `nanos` nanoseconds after the Unix epoch.
pub uninterp spec fn rfc3339_text(secs: i64, nanos: u32) -> Seq<char>;

/// Calls chrono's `DateTime::<Utc>::from_timestamp`, which answers `Some` on
/// every instant that `utc_representable` admits, and `DateTime::to_rfc3339`
/// on that date: the text is `rfc3339_text` of the two arguments.
#[verifier::external_body]
fn rfc3339_utc(secs: i64, nanos: u32) -> (s: String)
    requires
        utc_representable(secs as int, nanos as int),
    ensures
        s@ == rfc3339_text(secs, nanos),
{
    DateTime::<Utc>::from_timestamp(secs, nanos).unwrap().to_rfc3339()
}

/// A span of `ms` milliseconds, read back in milliseconds, is `ms` again.
pub proof fn law_millis_round_trip(ms: nat)
    ensures
        nanos_to_millis(millis_to_nanos(ms)) == ms,
{
}

/// A span of `secs` whole seconds, read back in seconds, is `secs` again.
pub proof fn law_secs_round_trip(secs: nat)
    ensures
        nanos_to_secs(secs * 1_000_000_000) == secs,
{
}

} // verus!
