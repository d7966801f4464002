//! The timers that the service keeps: each has an id and a name, runs for a
//! span (25 minutes unless set otherwise), never counts more time than that
//! span, and can be reset once it has completed.

use crate::clock::{
    capped, clock_gave, clock_read, monotonic_now, read_clock, Reading, ReadingView, Span, WallTime,
    MAX_SPAN_NANOS, unix_epoch_view,
};
use crate::text::{decimal, with_decimal};
use std::time::Instant;
use vstd::prelude::*;

verus! {

/// Why a timer refused a request.
#[derive(Debug)]
pub struct TimerError {
    details: String,
}

impl View for TimerError {
    type V = Seq<char>;

    closed spec fn view(&self) -> Seq<char> {
        self.details@
    }
}

impl TimerError {
    /// An error that says `msg`.
    pub fn new(msg: &str) -> (e: TimerError)
        ensures
            e@ == msg@,
    {
        TimerError { details: String::from_str(msg) }
    }

    /// What the error says.
    pub fn description(&self) -> (s: &str)
        ensures
            s@ == self@,
    {
        self.details.as_str()
    }
}

/// The states a timer passes through.
#[derive(Clone, Copy, Debug, PartialEq, Eq, Structural)]
pub enum TimerState {
    Initial,
    Running,
    Paused,
    Completed,
}

/// The name of a state, as its `Debug` form writes it.
pub open spec fn state_name(s: TimerState) -> Seq<char> {
    match s {
        TimerState::Initial => "Initial"@,
        TimerState::Running => "Running"@,
        TimerState::Paused => "Paused"@,
        TimerState::Completed => "Completed"@,
    }
}

impl TimerState {
    /// The name of the state, as its `Debug` form writes it.
    pub fn to_string(&self) -> (s: String)
        ensures
            s@ == state_name(*self),
    {
        match self {
            TimerState::Initial => String::from_str("Initial"),
            TimerState::Running => String::from_str("Running"),
            TimerState::Paused => String::from_str("Paused"),
            TimerState::Completed => String::from_str("Completed"),
        }
    }
}

/// The changes of state that `set_state` accepts: start an initial timer,
/// pause a running one, resume a paused one, reset a completed one.
pub open spec fn transition_allowed(from: TimerState, to: TimerState) -> bool {
    ||| from == TimerState::Initial && to == TimerState::Running
    ||| from == TimerState::Running && to == TimerState::Paused
    ||| from == TimerState::Paused && to == TimerState::Running
    ||| from == TimerState::Completed && to == TimerState::Initial
}

/// The span a new timer runs for: 1500 seconds, in nanoseconds.
pub open spec fn default_duration() -> nat {
    1_500_000_000_000
}

/// The name a new timer gets: `timer-` and its id in decimal.
pub open spec fn default_name(id: u16) -> Seq<char> {
    "timer-"@ + decimal(id as nat)
}

/// A timer of the service. `elapsed` grows only while it runs, in steps
/// measured between successive readings of the monotonic clock;
/// `interval_start` is the instant the current step began.
pub struct Timer {
    pub id: u16,
    pub name: String,
    pub state: TimerState,
    pub duration: Span,
    pub elapsed: Span,
    pub interruptions: u16,
    pub start_time: WallTime,
    pub end_time: WallTime,
    pub intervals: u64,
    pub interval_start: Instant,
}

/// The view of a `Timer`: spans as nanoseconds, wall times as
/// (seconds, nanoseconds) since the Unix epoch.
pub struct TimerView {
    pub id: u16,
    pub name: Seq<char>,
    pub state: TimerState,
    pub duration: nat,
    pub elapsed: nat,
    pub interruptions: u16,
    pub start_time: int,
    pub end_time: int,
    pub intervals: u64,
    pub interval_start: Instant,
}

impl View for Timer {
    type V = TimerView;

    open spec fn view(&self) -> TimerView {
        TimerView {
            id: self.id,
            name: self.name@,
            state: self.state,
            duration: self.duration@,
            elapsed: self.elapsed@,
            interruptions: self.interruptions,
            start_time: self.start_time@,
            end_time: self.end_time@,
            intervals: self.intervals,
            interval_start: self.interval_start,
        }
    }
}

/// The message of a refused change of state.
pub open spec fn invalid_transition_message() -> Seq<char> {
    "set_state: invalid state transition"@
}

/// The message of a pause refused because the interruption counter is full.
pub open spec fn limit_message() -> Seq<char> {
    "pause: interruption count at its limit"@
}

impl TimerView {
    /// A timer that has not run yet, with the given id, name and span, its
    /// first step beginning at `now`.
    pub open spec fn fresh(id: u16, name: Seq<char>, duration: nat, now: Instant) -> TimerView {
        TimerView {
            id,
            name,
            state: TimerState::Initial,
            duration,
            elapsed: 0,
            interruptions: 0,
            start_time: unix_epoch_view(),
            end_time: unix_epoch_view(),
            intervals: 0,
            interval_start: now,
        }
    }

    /// Whether a tick on reading `r` stays within the counters and the range
    /// of a span (outside it the arithmetic of the step would overflow).
    pub open spec fn can_tick(self, r: ReadingView) -> bool {
        self.state == TimerState::Running ==> {
            &&& self.intervals < u64::MAX
            &&& self.elapsed + r.since <= MAX_SPAN_NANOS
        }
    }

    /// The timer after a tick on reading `r`: a running timer adds the span
    /// since its step began, counts the step and begins the next one at the
    /// reading; once it has run for its whole span it completes, stamping its
    /// end, and its elapsed time is cut back to the span. A timer that is not
    /// running does not change.
    pub open spec fn after_tick(self, r: ReadingView) -> TimerView {
        if self.state != TimerState::Running {
            self
        } else {
            let elapsed = self.elapsed + r.since;
            let stepped = TimerView {
                elapsed,
                intervals: (self.intervals + 1) as u64,
                interval_start: r.instant,
                ..self
            };
            if elapsed >= self.duration {
                TimerView {
                    state: TimerState::Completed,
                    elapsed: self.duration,
                    end_time: r.wall,
                    ..stepped
                }
            } else {
                stepped
            }
        }
    }

    /// The timer after it is started on reading `r`.
    pub open spec fn after_start(self, r: ReadingView) -> TimerView {
        TimerView {
            state: TimerState::Running,
            start_time: r.wall,
            interval_start: r.instant,
            ..self
        }
    }

    /// Whether a pause on reading `r` stays within the counters.
    pub open spec fn can_pause(self, r: ReadingView) -> bool {
        &&& self.can_tick(r)
        &&& self.after_tick(r).state != TimerState::Completed ==> self.interruptions < u16::MAX
    }

    /// Whether `set_state(to)` on reading `r` is a pause that would leave the
    /// timer paused with its interruption counter already full.
    pub open spec fn refused_at_limit(self, to: TimerState, r: ReadingView) -> bool {
        &&& self.state == TimerState::Running
        &&& to == TimerState::Paused
        &&& self.elapsed + r.since < self.duration
        &&& self.interruptions == u16::MAX
    }

    /// The timer after it is paused on reading `r`: it ticks first, and if
    /// that completes it, it stays complete; else it is paused and counts one
    /// interruption more.
    pub open spec fn after_pause(self, r: ReadingView) -> TimerView {
        let ticked = self.after_tick(r);
        if ticked.state == TimerState::Completed {
            ticked
        } else {
            TimerView {
                state: TimerState::Paused,
                interruptions: (ticked.interruptions + 1) as u16,
                ..ticked
            }
        }
    }

    /// The timer after it is resumed on reading `r`.
    pub open spec fn after_resume(self, r: ReadingView) -> TimerView {
        TimerView { state: TimerState::Running, interval_start: r.instant, ..self }
    }

    /// The timer after a reset at `now`: as new, with its id, name and span
    /// kept.
    pub open spec fn after_reset(self, now: Instant) -> TimerView {
        TimerView::fresh(self.id, self.name, self.duration, now)
    }

    /// Whether `set_state(to)` on reading `r` stays within the counters.
    pub open spec fn can_set_state(self, to: TimerState, r: ReadingView) -> bool {
        self.state == TimerState::Running && to == TimerState::Paused ==> self.can_pause(r)
    }

    /// The timer after `set_state(to)` on reading `r`, where the change is
    /// allowed.
    pub open spec fn after_set_state(self, to: TimerState, r: ReadingView) -> TimerView {
        if self.state == TimerState::Initial {
            self.after_start(r)
        } else if self.state == TimerState::Running {
            self.after_pause(r)
        } else if self.state == TimerState::Paused {
            self.after_resume(r)
        } else {
            self.after_reset(r.instant)
        }
    }
}

impl Timer {
    /// A new timer with the given id, named `timer-<id>`, over 1500 seconds;
    /// its first step begins now.
    pub fn new(id: u16) -> (t: Timer)
        ensures
            t@ == TimerView::fresh(id, default_name(id), default_duration(), t.interval_start),
            clock_read(t.interval_start),
    {
        Timer::new_at(id, monotonic_now())
    }

    /// A new timer with the given id, named `timer-<id>`, over 1500 seconds,
    /// whose first step begins at `now`.
    pub fn new_at(id: u16, now: Instant) -> (t: Timer)
        ensures
            t@ == TimerView::fresh(id, default_name(id), default_duration(), now),
    {
        let name = with_decimal("timer-", id, "");
        proof {
            reveal_strlit("");
            assert(name@ =~= default_name(id));
        }
        Timer {
            id,
            name,
            state: TimerState::Initial,
            duration: Span::new(1500, 0),
            elapsed: Span::zero(),
            interruptions: 0,
            start_time: WallTime::unix_epoch(),
            end_time: WallTime::unix_epoch(),
            intervals: 0,
            interval_start: now,
        }
    }

    /// Reads the clocks for this timer. A step longer than a span can hold
    /// beside `elapsed` is cut at that limit.
    fn observe(&self) -> (r: Reading)
        ensures
            self@.elapsed + r@.since <= MAX_SPAN_NANOS,
            exists|r0: Reading|
                #![trigger clock_gave(self.interval_start, r0)]
                clock_gave(self.interval_start, r0) && r@ == capped(r0@, self@.elapsed),
    {
        let r = read_clock(&self.interval_start);
        assert(clock_gave(self.interval_start, r));
        let room = self.elapsed.headroom();
        let since = if r.since_interval_start.is_at_least(&room) {
            room
        } else {
            r.since_interval_start
        };
        let out = Reading { instant: r.instant, wall: r.wall, since_interval_start: since };
        assert(out@ == capped(r@, self@.elapsed));
        out
    }

    /// Moves to `state` on reading `r`, where that change is allowed; else
    /// answers the invalid-transition error and leaves the timer as it was.
    pub fn set_state_with(&mut self, state: TimerState, r: Reading) -> (res: Result<
        (),
        TimerError,
    >)
        requires
            old(self)@.can_set_state(state, r@),
        ensures
            res is Ok <==> transition_allowed(old(self)@.state, state),
            res is Ok ==> final(self)@ == old(self)@.after_set_state(state, r@),
            res matches Err(e) ==> e@ == invalid_transition_message() && final(self)@ == old(self)@,
    {
        match self.state {
            TimerState::Initial => match state {
                TimerState::Running => return self.start_with(r),
                _ => return Err(TimerError::new("set_state: invalid state transition")),
            },
            TimerState::Running => match state {
                TimerState::Paused => return self.pause_with(r),
                _ => return Err(TimerError::new("set_state: invalid state transition")),
            },
            TimerState::Paused => match state {
                TimerState::Running => self.resume_with(r),
                _ => return Err(TimerError::new("set_state: invalid state transition")),
            },
            TimerState::Completed => match state {
                TimerState::Initial => self.reset_with(r.instant),
                _ => return Err(TimerError::new("set_state: invalid state transition")),
            },
        }
    }

    /// Moves to `state` now, where that change is allowed; else answers the
    /// invalid-transition error and leaves the timer as it was. A pause ticks
    /// the timer first (see `tick`). A pause that would leave the timer
    /// paused with one interruption more than its counter holds is refused
    /// with the limit error, and the timer is left as it was.
    pub fn set_state(&mut self, state: TimerState) -> (res: Result<(), TimerError>)
        requires
            old(self).state == TimerState::Running && state == TimerState::Paused ==> old(
                self,
            ).intervals < u64::MAX,
        ensures
            !transition_allowed(old(self)@.state, state) ==> {
                &&& res matches Err(e) && e@ == invalid_transition_message()
                &&& final(self)@ == old(self)@
            },
            old(self).interruptions < u16::MAX ==> (res is Ok <==> transition_allowed(
                old(self)@.state,
                state,
            )),
            exists|r: ReadingView|
                #![trigger old(self)@.after_set_state(state, r)]
                {
                    &&& old(self)@.elapsed + r.since <= MAX_SPAN_NANOS
                    &&& res is Ok <==> transition_allowed(old(self)@.state, state) && !old(
                        self,
                    )@.refused_at_limit(state, r)
                    &&& res is Ok ==> final(self)@ == old(self)@.after_set_state(state, r)
                    &&& transition_allowed(old(self)@.state, state) && old(self)@.refused_at_limit(
                        state,
                        r,
                    ) ==> {
                        &&& res matches Err(e) && e@ == limit_message()
                        &&& final(self)@ == old(self)@
                    }
                },
            exists|r0: Reading|
                #![trigger clock_gave(old(self).interval_start, r0)]
                {
                    let r = capped(r0@, old(self)@.elapsed);
                    &&& clock_gave(old(self).interval_start, r0)
                    &&& res is Ok <==> transition_allowed(old(self)@.state, state) && !old(
                        self,
                    )@.refused_at_limit(state, r)
                    &&& res is Ok ==> final(self)@ == old(self)@.after_set_state(state, r)
                    &&& res is Err ==> final(self)@ == old(self)@
                },
    {
        let r = self.observe();
        let ghost r0 = choose|r0: Reading|
            clock_gave(self.interval_start, r0) && r@ == capped(r0@, self@.elapsed);
        assert(clock_gave(old(self).interval_start, r0));
        let ghost seen = r@;
        assert(old(self)@.after_set_state(state, seen) == old(self)@.after_set_state(state, seen));
        if self.state == TimerState::Running && state == TimerState::Paused
            && self.pause_reaches_limit(&r) {
            return Err(TimerError::new("pause: interruption count at its limit"));
        }
        self.set_state_with(state, r)
    }

    /// Whether a pause on reading `r` would leave this timer paused with its
    /// interruption counter already full.
    fn pause_reaches_limit(&self, r: &Reading) -> (b: bool)
        requires
            self@.elapsed + r@.since <= MAX_SPAN_NANOS,
        ensures
            b == (self@.elapsed + r@.since < self@.duration && self@.interruptions == u16::MAX),
    {
        match self.elapsed.checked_add(&r.since_interval_start) {
            Some(total) => !total.is_at_least(&self.duration) && self.interruptions == u16::MAX,
            None => false,
        }
    }

    /// Starts an initial timer on reading `r`; a timer in any other state is
    /// refused and left as it was.
    pub fn start_with(&mut self, r: Reading) -> (res: Result<(), TimerError>)
        ensures
            res is Ok <==> old(self)@.state == TimerState::Initial,
            res is Ok ==> final(self)@ == old(self)@.after_start(r@),
            res matches Err(e) ==> e@ == "start: timer must be in 'Initial' state"@ && final(self)@ == old(self)@,
    {
        if self.state != TimerState::Initial {
            return Err(TimerError::new("start: timer must be in 'Initial' state"));
        }
        self.state = TimerState::Running;
        self.start_time = r.wall;
        self.interval_start = r.instant;
        Ok(())
    }

    /// Starts an initial timer now: it runs from this moment, which is also
    /// its start time. A timer in any other state is refused and left as it
    /// was.
    pub fn start(&mut self) -> (res: Result<(), TimerError>)
        ensures
            res is Ok <==> old(self)@.state == TimerState::Initial,
            res is Ok ==> exists|r: ReadingView|
                #![trigger old(self)@.after_start(r)]
                final(self)@ == old(self)@.after_start(r),
            res is Ok ==> exists|r0: Reading|
                #![trigger clock_gave(old(self).interval_start, r0)]
                clock_gave(old(self).interval_start, r0) && final(self)@ == old(self)@.after_start(
                    capped(r0@, old(self)@.elapsed),
                ),
            res matches Err(e) ==> e@ == "start: timer must be in 'Initial' state"@ && final(self)@ == old(self)@,
    {
        let r = self.observe();
        let ghost r0 = choose|r0: Reading|
            clock_gave(self.interval_start, r0) && r@ == capped(r0@, self@.elapsed);
        assert(clock_gave(old(self).interval_start, r0));
        self.start_with(r)
    }

    /// Pauses a running timer on reading `r`, after a tick on that reading;
    /// a timer in any other state is refused and left as it was.
    pub fn pause_with(&mut self, r: Reading) -> (res: Result<(), TimerError>)
        requires
            old(self)@.state == TimerState::Running ==> old(self)@.can_pause(r@),
        ensures
            res is Ok <==> old(self)@.state == TimerState::Running,
            res is Ok ==> final(self)@ == old(self)@.after_pause(r@),
            res matches Err(e) ==> e@ == "pause: timer must be in 'Running' state"@ && final(self)@ == old(self)@,
    {
        if self.state != TimerState::Running {
            return Err(TimerError::new("pause: timer must be in 'Running' state"));
        }
        self.tick_with(r);
        if self.state == TimerState::Completed {
            return Ok(());
        }
        self.state = TimerState::Paused;
        self.interruptions = self.interruptions + 1;
        Ok(())
    }

    /// Resumes a paused timer on reading `r`: its next step begins there. A
    /// timer in any other state is refused and left as it was.
    pub fn resume_with(&mut self, r: Reading) -> (res: Result<(), TimerError>)
        ensures
            res is Ok <==> old(self)@.state == TimerState::Paused,
            res is Ok ==> final(self)@ == old(self)@.after_resume(r@),
            res matches Err(e) ==> e@ == "resume: timer must be in 'Paused' state"@ && final(self)@ == old(self)@,
    {
        if self.state != TimerState::Paused {
            return Err(TimerError::new("resume: timer must be in 'Paused' state"));
        }
        self.state = TimerState::Running;
        self.interval_start = r.instant;
        Ok(())
    }

    /// Resets the timer, in any state, to a timer that has not run, its first
    /// step beginning at `now`; id, name and span are kept. It always succeeds.
    pub fn reset_with(&mut self, now: Instant) -> (res: Result<(), TimerError>)
        ensures
            res is Ok,
            final(self)@ == old(self)@.after_reset(now),
    {
        self.state = TimerState::Initial;
        self.elapsed = Span::zero();
        self.interruptions = 0;
        self.start_time = WallTime::unix_epoch();
        self.end_time = WallTime::unix_epoch();
        self.intervals = 0;
        self.interval_start = now;
        Ok(())
    }

    /// Resets the timer, in any state, to a timer that has not run, its first
    /// step beginning now; id, name and span are kept. It always succeeds.
    pub fn reset(&mut self) -> (res: Result<(), TimerError>)
        ensures
            res is Ok,
            final(self)@ == old(self)@.after_reset(final(self).interval_start),
            clock_read(final(self).interval_start),
    {
        self.reset_with(monotonic_now())
    }

    /// Ticks the timer on reading `r` (see `TimerView::after_tick`).
    pub fn tick_with(&mut self, r: Reading)
        requires
            old(self)@.can_tick(r@),
        ensures
            final(self)@ == old(self)@.after_tick(r@),
    {
        if self.state != TimerState::Running {
            return;
        }
        let elapsed = self.elapsed.checked_add(&r.since_interval_start);
        match elapsed {
            Some(total) => {
                self.elapsed = total;
            },
            None => {},
        }
        self.intervals = self.intervals + 1;
        self.interval_start = r.instant;
        if self.elapsed.is_at_least(&self.duration) {
            self.elapsed = self.duration;
            self.state = TimerState::Completed;
            self.end_time = r.wall;
        }
    }

    /// Ticks the timer now: a running timer adds the time since its step
    /// began, and completes once it has run for its whole span; any other
    /// timer is left as it was.
    pub fn tick(&mut self)
        requires
            old(self).state == TimerState::Running ==> old(self).intervals < u64::MAX,
        ensures
            exists|r: ReadingView|
                #![trigger old(self)@.after_tick(r)]
                final(self)@ == old(self)@.after_tick(r),
            old(self).state != TimerState::Running ==> final(self)@ == old(self)@,
            old(self).state == TimerState::Running ==> exists|r0: Reading|
                #![trigger clock_gave(old(self).interval_start, r0)]
                clock_gave(old(self).interval_start, r0) && final(self)@ == old(self)@.after_tick(
                    capped(r0@, old(self)@.elapsed),
                ),
    {
        if self.state != TimerState::Running {
            let ghost idle = ReadingView {
                instant: self.interval_start,
                wall: unix_epoch_view(),
                since: 0,
            };
            assert(old(self)@.after_tick(idle) == old(self)@);
            return;
        }
        let r = self.observe();
        let ghost r0 = choose|r0: Reading|
            clock_gave(self.interval_start, r0) && r@ == capped(r0@, self@.elapsed);
        assert(clock_gave(old(self).interval_start, r0));
        self.tick_with(r);
    }
}

/// A timer that is not running does not change on a tick.
pub proof fn law_tick_leaves_idle_timer(t: TimerView, r: ReadingView)
    requires
        t.state != TimerState::Running,
    ensures
        t.after_tick(r) == t,
{
}

/// A timer never counts more time than its span: where that holds before a
/// tick it holds after it, and a timer still running after a tick has run
/// for less than its span.
pub proof fn law_tick_keeps_elapsed_within_duration(t: TimerView, r: ReadingView)
    requires
        t.elapsed <= t.duration,
    ensures
        t.after_tick(r).elapsed <= t.after_tick(r).duration,
        t.after_tick(r).duration == t.duration,
        t.after_tick(r).state == TimerState::Running ==> t.after_tick(r).elapsed < t.duration,
        t.after_tick(r).elapsed >= t.elapsed,
{
}

/// A running timer completes on a tick exactly when the time it has run
/// reaches its span; then its elapsed time is the span and its end time is
/// the reading's wall time.
pub proof fn law_tick_completes_when_due(t: TimerView, r: ReadingView)
    requires
        t.state == TimerState::Running,
    ensures
        t.after_tick(r).state == TimerState::Completed <==> t.elapsed + r.since >= t.duration,
        t.after_tick(r).state != TimerState::Completed ==> t.after_tick(r).state
            == TimerState::Running,
        t.after_tick(r).state == TimerState::Completed ==> {
            &&& t.after_tick(r).elapsed == t.duration
            &&& t.after_tick(r).end_time == r.wall
        },
{
}

/// A reset, from any state, gives the timer a new timer would be, with the
/// same id, name and span.
pub proof fn law_reset_is_fresh(t: TimerView, now: Instant)
    ensures
        t.after_reset(now) == TimerView::fresh(t.id, t.name, t.duration, now),
        t.after_reset(now).state == TimerState::Initial,
{
}

/// A completed timer only leaves that state by a reset; it then starts over.
pub proof fn law_completed_resets(t: TimerView, to: TimerState, r: ReadingView)
    requires
        t.state == TimerState::Completed,
    ensures
        transition_allowed(t.state, to) <==> to == TimerState::Initial,
        to == TimerState::Initial ==> t.after_set_state(to, r) == TimerView::fresh(
            t.id,
            t.name,
            t.duration,
            r.instant,
        ),
        t.after_tick(r) == t,
{
}

/// Pausing a running timer that has not reached its span pauses it with one
/// interruption more; resuming then runs it again from the new reading, with
/// the time run before the pause kept.
pub proof fn law_pause_then_resume(t: TimerView, r1: ReadingView, r2: ReadingView)
    requires
        t.state == TimerState::Running,
        t.can_pause(r1),
        t.elapsed + r1.since < t.duration,
    ensures
        ({
            let paused = t.after_pause(r1);
            let resumed = paused.after_resume(r2);
            &&& paused.state == TimerState::Paused
            &&& paused.interruptions == t.interruptions + 1
            &&& resumed.state == TimerState::Running
            &&& resumed.elapsed == t.elapsed + r1.since
            &&& resumed.interruptions == t.interruptions + 1
            &&& resumed.intervals == t.intervals + 1
            &&& resumed.interval_start == r2.instant
            &&& resumed.start_time == t.start_time
            &&& resumed.duration == t.duration
        }),
{
}

/// Every change of state keeps the timer's id, name and span.
pub proof fn law_set_state_keeps_identity(t: TimerView, to: TimerState, r: ReadingView)
    requires
        transition_allowed(t.state, to),
    ensures
        t.after_set_state(to, r).id == t.id,
        t.after_set_state(to, r).name == t.name,
        t.after_set_state(to, r).duration == t.duration,
        t.after_set_state(to, r).state == to || (t.state == TimerState::Running
            && t.after_set_state(to, r).state == TimerState::Completed),
{
}

/// No change of state makes a timer count more time than its span: where
/// that holds before, it holds after.
pub proof fn law_set_state_keeps_elapsed_within_duration(
    t: TimerView,
    to: TimerState,
    r: ReadingView,
)
    requires
        transition_allowed(t.state, to),
        t.elapsed <= t.duration,
    ensures
        t.after_set_state(to, r).elapsed <= t.after_set_state(to, r).duration,
{
}

/// What every timer built by `new` and changed only through its operations
/// keeps: a timer in its initial state has not run; a started timer has a
/// start time; it has an end time exactly when it has completed; a paused
/// timer has time left; a completed one has run for its whole span.
pub open spec fn well_formed(t: TimerView) -> bool {
    &&& t.state == TimerState::Initial ==> {
        &&& t.elapsed == 0
        &&& t.interruptions == 0
        &&& t.intervals == 0
        &&& t.start_time == unix_epoch_view()
        &&& t.end_time == unix_epoch_view()
    }
    &&& t.state != TimerState::Initial ==> t.start_time != unix_epoch_view()
    &&& (t.end_time != unix_epoch_view() <==> t.state == TimerState::Completed)
    &&& t.state == TimerState::Paused ==> t.elapsed < t.duration
    &&& t.state == TimerState::Completed ==> t.elapsed == t.duration
}

/// A new timer is well formed.
pub proof fn law_fresh_is_well_formed(id: u16, name: Seq<char>, duration: nat, now: Instant)
    ensures
        well_formed(TimerView::fresh(id, name, duration, now)),
{
}

/// A tick keeps a timer well formed, where the wall clock reads a time other
/// than the Unix epoch.
pub proof fn law_tick_keeps_well_formed(t: TimerView, r: ReadingView)
    requires
        well_formed(t),
        r.wall != unix_epoch_view(),
    ensures
        well_formed(t.after_tick(r)),
{
}

/// Every accepted change of state keeps a timer well formed, where the wall
/// clock reads a time other than the Unix epoch; a refused one leaves it as
/// it was.
pub proof fn law_set_state_keeps_well_formed(t: TimerView, to: TimerState, r: ReadingView)
    requires
        well_formed(t),
        transition_allowed(t.state, to),
        r.wall != unix_epoch_view(),
    ensures
        well_formed(t.after_set_state(to, r)),
{
}

/// A tick of a running timer begins the next step at the reading and counts
/// the step; where the timer does not reach its span, the time since the step
/// began is added to what it has run.
pub proof fn law_tick_begins_next_step(t: TimerView, r: ReadingView)
    requires
        t.state == TimerState::Running,
    ensures
        t.after_tick(r).interval_start == r.instant,
        t.after_tick(r).intervals == t.intervals + 1 || t.intervals == u64::MAX,
        t.elapsed + r.since < t.duration ==> {
            &&& t.after_tick(r).elapsed == t.elapsed + r.since
            &&& t.after_tick(r).state == TimerState::Running
        },
{
}

/// Two successive ticks of a running timer count each moment once: the time
/// run grows by the two spans, and the second step is measured from the first
/// tick's reading.
pub proof fn law_successive_ticks(t: TimerView, r1: ReadingView, r2: ReadingView)
    requires
        t.state == TimerState::Running,
        t.elapsed + r1.since + r2.since < t.duration,
    ensures
        ({
            let first = t.after_tick(r1);
            let second = first.after_tick(r2);
            &&& first.interval_start == r1.instant
            &&& second.interval_start == r2.instant
            &&& second.elapsed == t.elapsed + r1.since + r2.since
            &&& second.state == TimerState::Running
        }),
{
}

/// Starting an initial timer runs it from the reading and stamps its start
/// with the reading's wall time; the time run so far is kept.
pub proof fn law_start_stamps_wall_time(t: TimerView, r: ReadingView)
    requires
        t.state == TimerState::Initial,
    ensures
        t.after_set_state(TimerState::Running, r).state == TimerState::Running,
        t.after_set_state(TimerState::Running, r).start_time == r.wall,
        t.after_set_state(TimerState::Running, r).interval_start == r.instant,
        t.after_set_state(TimerState::Running, r).elapsed == t.elapsed,
{
}

/// A pause counts the time the timer ran since its step began: short of its
/// span it is paused with that time added and one interruption more; where
/// that time reaches the span it completes, its end stamped with the
/// reading's wall time.
pub proof fn law_pause_counts_time_run(t: TimerView, r: ReadingView)
    requires
        t.state == TimerState::Running,
    ensures
        t.elapsed + r.since < t.duration ==> {
            let p = t.after_set_state(TimerState::Paused, r);
            &&& p.state == TimerState::Paused
            &&& p.elapsed == t.elapsed + r.since
            &&& p.interruptions == t.interruptions + 1 || t.interruptions == u16::MAX
        },
        t.elapsed + r.since >= t.duration ==> {
            let p = t.after_set_state(TimerState::Paused, r);
            &&& p.state == TimerState::Completed
            &&& p.end_time == r.wall
            &&& p.interruptions == t.interruptions
        },
{
}

/// Resuming a paused timer runs it again from the reading with the time it
/// ran kept.
pub proof fn law_resume_keeps_time_run(t: TimerView, r: ReadingView)
    requires
        t.state == TimerState::Paused,
    ensures
        t.after_set_state(TimerState::Running, r).state == TimerState::Running,
        t.after_set_state(TimerState::Running, r).elapsed == t.elapsed,
        t.after_set_state(TimerState::Running, r).interval_start == r.instant,
        t.after_set_state(TimerState::Running, r).interruptions == t.interruptions,
        t.after_set_state(TimerState::Running, r).start_time == t.start_time,
{
}

} // verus!
