use std::time::Instant;
use tomayto::clock::{Reading, Span, WallTime};
use tomayto::timer::{Timer, TimerError, TimerState};

fn reading(since: Span, wall: WallTime) -> Reading {
    Reading { instant: Instant::now(), wall, since_interval_start: since }
}

fn some_wall_time() -> WallTime {
    WallTime::from_timestamp(1_700_000_000, 0).unwrap()
}

#[test]
fn start_initial_state() {
    let mut t = Timer::new(Span::new(60, 0));
    let init_interval = t.interval_start;
    assert_eq!(t.state, TimerState::Initial);
    assert_eq!(t.start_time, WallTime::unix_epoch());
    t.start().expect("failed starting timer");
    assert_eq!(t.state, TimerState::Running);
    assert_ne!(t.interval_start, init_interval);
    assert_ne!(t.start_time, WallTime::unix_epoch());
}

#[test]
fn start_fail_other_states() {
    let mut t = Timer::new(Span::new(60, 0));

    t.state = TimerState::Running;
    match t.start() {
        Ok(()) => panic!("start function should error on 'Running' state"),
        _ => (),
    }

    t.state = TimerState::Paused;
    match t.start() {
        Ok(()) => panic!("start function should error on 'Paused' state"),
        _ => (),
    }

    t.state = TimerState::Completed;
    match t.start() {
        Ok(()) => panic!("start function should error on 'Completed' state"),
        _ => (),
    }
}

#[test]
fn start_and_stop() {
    // The timer runs for one second (and a little more) between the two
    // changes of state.
    let mut t = Timer::new(Span::new(60, 0));
    t.set_state_with(TimerState::Running, reading(Span::zero(), some_wall_time())).unwrap();
    t.set_state_with(TimerState::Paused, reading(Span::new(1, 250_000), some_wall_time()))
        .unwrap();

    assert_eq!(t.elapsed.as_secs(), 1);
    assert_eq!(t.interruptions, 1);
    assert_eq!(t.intervals, 1);
    assert_eq!(t.state, TimerState::Paused);
}

#[test]
fn complete() {
    // The timer runs for one second, past its half-second span, before the
    // tick.
    let mut t = Timer::new(Span::new(0, 500_000_000));
    t.set_state_with(TimerState::Running, reading(Span::zero(), some_wall_time())).unwrap();
    t.tick_with(reading(Span::new(1, 250_000), some_wall_time()));

    assert_eq!(t.interruptions, 0);
    assert_eq!(t.intervals, 1);
    assert_ne!(t.end_time, WallTime::unix_epoch());
    assert_eq!(t.state, TimerState::Completed);
}

#[test]
fn new_timer_is_initial() {
    let t = Timer::new(Span::new(60, 0));
    assert_eq!(t.state, TimerState::Initial);
    assert_eq!(t.duration, Span::new(60, 0));
    assert_eq!(t.elapsed, Span::zero());
    assert_eq!(t.interruptions, 0);
    assert_eq!(t.intervals, 0);
    assert_eq!(t.end_time, WallTime::unix_epoch());
}

#[test]
fn set_state_refuses_invalid_transitions() {
    let cases = [
        (TimerState::Initial, TimerState::Initial),
        (TimerState::Initial, TimerState::Paused),
        (TimerState::Initial, TimerState::Completed),
        (TimerState::Running, TimerState::Running),
        (TimerState::Running, TimerState::Initial),
        (TimerState::Paused, TimerState::Paused),
        (TimerState::Paused, TimerState::Completed),
        (TimerState::Completed, TimerState::Initial),
        (TimerState::Completed, TimerState::Running),
    ];
    for (from, to) in cases {
        let mut t = Timer::new(Span::new(60, 0));
        t.state = from;
        let err: TimerError = t.set_state(to).unwrap_err();
        assert_eq!(err.description(), "set_state: invalid state transition");
    }
}

#[test]
fn refused_start_pause_resume_say_why() {
    let mut t = Timer::new(Span::new(60, 0));
    let e = t.pause_with(reading(Span::zero(), some_wall_time())).unwrap_err();
    assert_eq!(e.description(), "pause: timer must be in 'Running' state");
    let e = t.resume_with(reading(Span::zero(), some_wall_time())).unwrap_err();
    assert_eq!(e.description(), "resume: timer must be in 'Paused' state");
    t.start().unwrap();
    let e = t.start().unwrap_err();
    assert_eq!(e.description(), "start: timer must be in 'Initial' state");
    assert_eq!(TimerError::new("boom").description(), "boom");
}

#[test]
fn pause_then_resume_keeps_elapsed() {
    let mut t = Timer::new(Span::new(60, 0));
    let start = some_wall_time();
    t.start_with(reading(Span::zero(), start)).unwrap();
    assert_eq!(t.start_time, start);
    t.pause_with(reading(Span::new(2, 0), some_wall_time())).unwrap();
    assert_eq!(t.state, TimerState::Paused);
    let r = reading(Span::new(100, 0), some_wall_time());
    let resumed_at = r.instant;
    t.resume_with(r).unwrap();
    assert_eq!(t.state, TimerState::Running);
    assert_eq!(t.interval_start, resumed_at);
    assert_eq!(t.elapsed, Span::new(2, 0));
    assert_eq!(t.interruptions, 1);
    assert_eq!(t.intervals, 1);
    assert_eq!(t.start_time, start);
}

#[test]
fn pause_that_completes_counts_no_interruption() {
    let mut t = Timer::new(Span::new(1, 0));
    t.start_with(reading(Span::zero(), some_wall_time())).unwrap();
    let end = WallTime::from_timestamp(1_700_000_001, 5).unwrap();
    t.pause_with(reading(Span::new(3, 0), end)).unwrap();
    assert_eq!(t.state, TimerState::Completed);
    assert_eq!(t.interruptions, 0);
    assert_eq!(t.end_time, end);
    // Time past the span is kept by this timer.
    assert_eq!(t.elapsed, Span::new(3, 0));
}

#[test]
fn completed_timer_stays_completed() {
    let mut t = Timer::new(Span::new(1, 0));
    t.start_with(reading(Span::zero(), some_wall_time())).unwrap();
    t.tick_with(reading(Span::new(1, 0), some_wall_time()));
    assert_eq!(t.state, TimerState::Completed);
    assert!(t.set_state(TimerState::Initial).is_err());
    assert!(t.set_state(TimerState::Running).is_err());
    t.tick();
    assert_eq!(t.state, TimerState::Completed);
    assert_eq!(t.intervals, 1);
}

#[test]
fn tick_on_idle_timer_changes_nothing() {
    let mut t = Timer::new(Span::new(60, 0));
    let before = t.interval_start;
    t.tick_with(reading(Span::new(5, 0), some_wall_time()));
    assert_eq!(t.state, TimerState::Initial);
    assert_eq!(t.elapsed, Span::zero());
    assert_eq!(t.intervals, 0);
    assert_eq!(t.interval_start, before);
}

#[test]
fn tick_below_span_keeps_running() {
    let mut t = Timer::new(Span::new(60, 0));
    t.start_with(reading(Span::zero(), some_wall_time())).unwrap();
    t.tick_with(reading(Span::new(10, 0), some_wall_time()));
    t.tick_with(reading(Span::new(20, 0), some_wall_time()));
    assert_eq!(t.state, TimerState::Running);
    assert_eq!(t.elapsed, Span::new(30, 0));
    assert_eq!(t.intervals, 2);
    assert_eq!(t.end_time, WallTime::unix_epoch());
}

#[test]
fn real_clock_pause_counts_an_interval() {
    let mut t = Timer::new(Span::new(60, 0));
    t.set_state(TimerState::Running).unwrap();
    t.set_state(TimerState::Paused).unwrap();
    assert_eq!(t.state, TimerState::Paused);
    assert_eq!(t.interruptions, 1);
    assert_eq!(t.intervals, 1);
    assert!(t.elapsed.as_secs() < 60);
    t.set_state(TimerState::Running).unwrap();
    assert_eq!(t.state, TimerState::Running);
}

#[test]
fn pause_at_full_interruption_counter() {
    let mut t = Timer::new(Span::new(60, 0));
    t.start().unwrap();
    t.interruptions = u16::MAX;
    let e = t.set_state(TimerState::Paused).unwrap_err();
    assert_eq!(e.description(), "pause: interruption count at its limit");
    assert_eq!(t.state, TimerState::Running);

    let mut done = Timer::new(Span::zero());
    done.start().unwrap();
    done.interruptions = u16::MAX;
    done.set_state(TimerState::Paused).unwrap();
    assert_eq!(done.state, TimerState::Completed);
    assert_eq!(done.interruptions, u16::MAX);
}
