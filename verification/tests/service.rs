use std::time::Instant;
use tomayto::clock::{Reading, Span, WallTime, MAX_UTC_SECS};
use tomayto::service::message::{Message, MessageTimer, MessageTimerUpdate, TimerName};
use tomayto::service::reply::{
    answer_reply, send_failed, timed_out, Endpoint, ReplyBody, STATUS_ACCEPTED,
    STATUS_INTERNAL_SERVER_ERROR, STATUS_OK,
};
use tomayto::service::timer::{Timer, TimerState};
use tomayto::service::tomayto::{
    get_timer, get_timer_with, list_timers, replace_timer, replace_timer_at, update_timer,
    update_timer_with, Tomayto,
};

fn reading(since: Span) -> Reading {
    Reading {
        instant: Instant::now(),
        wall: WallTime::from_timestamp(1_700_000_000, 0).unwrap(),
        since_interval_start: since,
    }
}

fn with_default_timer() -> Tomayto {
    let mut tomayto = Tomayto::new();
    tomayto.timers.insert(0, Timer::new(0));
    tomayto
}

fn no_update() -> MessageTimerUpdate {
    MessageTimerUpdate { name: None, state: None, duration_ms: None }
}

fn error_text(m: Message<()>) -> String {
    match m {
        Message::Error(e) => e,
        _ => panic!("expected an error"),
    }
}

fn timer_of(m: Message<()>) -> MessageTimer {
    match m {
        Message::Timer(t) => t,
        _ => panic!("expected a timer"),
    }
}

#[test]
fn missing_timer_answers_error() {
    let mut tomayto = with_default_timer();
    assert_eq!(error_text(get_timer(&mut tomayto, 7)), "timer 7 does not exist");
    assert_eq!(
        error_text(update_timer(&mut tomayto, 12345, &no_update())),
        "timer 12345 does not exist"
    );
    assert_eq!(error_text(replace_timer(&mut tomayto, 1, &no_update())), "timer 1 does not exist");
    assert_eq!(tomayto.timers.len(), 1);
    assert_eq!(tomayto.timers[&0].state, TimerState::Initial);
}

#[test]
fn summary_of_new_timer() {
    let t = Timer::new(3);
    let m = MessageTimer::from_timer(&t);
    assert_eq!(m.id, 3);
    assert_eq!(m.name, "timer-3");
    assert_eq!(m.state, "Initial");
    assert_eq!(m.duration_ms, 1_500_000);
    assert_eq!(m.elapsed_ms, 0);
    assert_eq!(m.interruptions, 0);
    assert_eq!(m.start_time, None);
    assert_eq!(m.end_time, None);
}

#[test]
fn summary_shows_set_times() {
    let mut t = Timer::new(3);
    t.start_with(Reading {
        instant: Instant::now(),
        wall: WallTime::from_timestamp(1_700_000_000, 0).unwrap(),
        since_interval_start: Span::zero(),
    })
    .unwrap();
    t.tick_with(Reading {
        instant: Instant::now(),
        wall: WallTime::from_timestamp(1_700_001_500, 250_000_000).unwrap(),
        since_interval_start: Span::new(1500, 999_999),
    });
    let m = MessageTimer::from_timer(&t);
    assert_eq!(m.state, "Completed");
    assert_eq!(m.elapsed_ms, 1_500_000);
    assert_eq!(m.start_time.as_deref(), Some("2023-11-14T22:13:20+00:00"));
    assert_eq!(m.end_time.as_deref(), Some("2023-11-14T22:38:20.250+00:00"));
}

#[test]
fn get_ticks_the_timer() {
    let mut tomayto = with_default_timer();
    tomayto.timers.get_mut(&0).unwrap().start().unwrap();
    let m = timer_of(get_timer_with(&mut tomayto, 0, reading(Span::new(61, 500_000_000))));
    assert_eq!(m.state, "Running");
    assert_eq!(m.elapsed_ms, 61_500);
    assert_eq!(tomayto.timers[&0].intervals, 1);
    let m = timer_of(get_timer(&mut tomayto, 0));
    assert_eq!(m.state, "Running");
    assert!(m.elapsed_ms >= 61_500);
    assert_eq!(tomayto.timers[&0].intervals, 2);
}

#[test]
fn update_changes_state_only() {
    let mut tomayto = with_default_timer();
    let update = MessageTimerUpdate {
        name: Some(String::from("ignored")),
        state: Some(TimerState::Running),
        duration_ms: Some(1),
    };
    let m = timer_of(update_timer_with(&mut tomayto, 0, &update, reading(Span::zero())));
    assert_eq!(m.state, "Running");
    assert_eq!(m.name, "timer-0");
    assert_eq!(m.duration_ms, 1_500_000);
    assert_eq!(m.start_time.as_deref(), Some("2023-11-14T22:13:20+00:00"));

    // A refused change is not reported and changes nothing.
    let update = MessageTimerUpdate { name: None, state: Some(TimerState::Initial), duration_ms: None };
    let m = timer_of(update_timer(&mut tomayto, 0, &update));
    assert_eq!(m.state, "Running");

    let update = MessageTimerUpdate { name: None, state: Some(TimerState::Paused), duration_ms: None };
    let m = timer_of(update_timer_with(&mut tomayto, 0, &update, reading(Span::new(2, 0))));
    assert_eq!(m.state, "Paused");
    assert_eq!(m.interruptions, 1);
    assert_eq!(m.elapsed_ms, 2_000);
}

#[test]
fn replace_makes_a_new_timer() {
    let mut tomayto = with_default_timer();
    tomayto.timers.get_mut(&0).unwrap().start().unwrap();
    let update = MessageTimerUpdate {
        name: Some(String::from("tea")),
        state: Some(TimerState::Paused),
        duration_ms: Some(180_000),
    };
    let now = Instant::now();
    let m = timer_of(replace_timer_at(&mut tomayto, 0, &update, now));
    assert_eq!(m.id, 0);
    assert_eq!(m.name, "tea");
    assert_eq!(m.state, "Initial");
    assert_eq!(m.duration_ms, 180_000);
    assert_eq!(m.elapsed_ms, 0);
    assert_eq!(m.start_time, None);
    let stored = &tomayto.timers[&0];
    assert_eq!(stored.name, "tea");
    assert_eq!(stored.duration, Span::from_millis(180_000));
    assert_eq!(stored.interval_start, now);

    // Reading it back answers the same summary.
    let again = timer_of(get_timer(&mut tomayto, 0));
    assert_eq!(again.name, "tea");
    assert_eq!(again.state, "Initial");
    assert_eq!(again.duration_ms, 180_000);

    let m = timer_of(replace_timer(&mut tomayto, 0, &no_update()));
    assert_eq!(m.name, "timer-0");
    assert_eq!(m.duration_ms, 1_500_000);
}

#[test]
fn list_shows_every_timer_once() {
    let mut tomayto = with_default_timer();
    tomayto.timers.insert(4, Timer::new(4));
    tomayto.timers.insert(9, Timer::new(9));
    let timers = match list_timers::<()>(&tomayto) {
        Message::Timers(v) => v,
        _ => panic!("expected timers"),
    };
    let mut ids: Vec<u16> = timers.iter().map(|t| t.id).collect();
    ids.sort();
    assert_eq!(ids, vec![0, 4, 9]);
    for t in &timers {
        assert_eq!(t.name, format!("timer-{}", t.id));
    }
    let empty = Tomayto::new();
    match list_timers::<()>(&empty) {
        Message::Timers(v) => assert!(v.is_empty()),
        _ => panic!("expected timers"),
    }
}

#[test]
fn timer_name_from_summary() {
    let m = MessageTimer::from_timer(&Timer::new(12));
    let n: Box<TimerName> = TimerName::from_timer_msg(&m);
    assert_eq!(n.id, 12);
    assert_eq!(n.name, "timer-12");
}

fn error_reply_text(body: ReplyBody) -> String {
    match body {
        ReplyBody::Error(e) => e,
        _ => panic!("expected an error body"),
    }
}

#[test]
fn replies_to_answers() {
    let summary = MessageTimer::from_timer(&Timer::new(1));
    let r = answer_reply::<()>(Endpoint::GetTimer, Some(Message::Timer(summary)));
    assert_eq!(r.status, STATUS_OK);
    assert!(matches!(r.body, ReplyBody::Timer(ref t) if t.id == 1));

    for endpoint in [Endpoint::PatchTimer, Endpoint::PutTimer] {
        let summary = MessageTimer::from_timer(&Timer::new(2));
        let r = answer_reply::<()>(endpoint, Some(Message::Timer(summary)));
        assert_eq!(r.status, STATUS_ACCEPTED);
        assert_eq!(r.status, 202);
    }

    let timers = vec![
        MessageTimer::from_timer(&Timer::new(0)),
        MessageTimer::from_timer(&Timer::new(8)),
    ];
    let r = answer_reply::<()>(Endpoint::ListTimers, Some(Message::Timers(timers)));
    assert_eq!(r.status, 200);
    match r.body {
        ReplyBody::TimerNames(names) => {
            assert_eq!(names.len(), 2);
            assert_eq!(names[1].id, 8);
            assert_eq!(names[1].name, "timer-8");
        },
        _ => panic!("expected names"),
    }

    let r = answer_reply::<()>(Endpoint::GetTimer, Some(Message::Error(String::from("timer 3 does not exist"))));
    assert_eq!(r.status, STATUS_INTERNAL_SERVER_ERROR);
    assert_eq!(error_reply_text(r.body), "timer 3 does not exist");

    let r = answer_reply::<()>(Endpoint::ListTimers, Some(Message::Timer(MessageTimer::from_timer(&Timer::new(0)))));
    assert_eq!(r.status, 500);
    assert_eq!(error_reply_text(r.body), "received unexpected message type from main task");

    let r = answer_reply::<()>(Endpoint::PutTimer, None);
    assert_eq!(r.status, 500);
    assert_eq!(error_reply_text(r.body), "received unexpected message type from main task");

    let r = answer_reply::<()>(Endpoint::PatchTimer, Some(Message::ListTimers(())));
    assert_eq!(error_reply_text(r.body), "received unexpected message type from main task");
}

#[test]
fn replies_to_failures() {
    let r = timed_out();
    assert_eq!(r.status, 500);
    assert_eq!(error_reply_text(r.body), "did not receive message from main task withn 250ms timeout");
    let r = send_failed("channel closed");
    assert_eq!(r.status, 500);
    assert_eq!(error_reply_text(r.body), "failed to send message to main task: channel closed");
}

#[test]
fn summary_leaves_out_unrenderable_times() {
    let mut t = Timer::new(6);
    t.start_with(Reading {
        instant: Instant::now(),
        wall: WallTime::from_timestamp(MAX_UTC_SECS + 1, 0).unwrap(),
        since_interval_start: Span::zero(),
    })
    .unwrap();
    let m = MessageTimer::from_timer(&t);
    assert_eq!(m.state, "Running");
    assert_eq!(m.start_time, None);
}

#[test]
fn update_pause_at_full_interruption_counter() {
    let mut tomayto = with_default_timer();
    tomayto.timers.get_mut(&0).unwrap().start().unwrap();
    tomayto.timers.get_mut(&0).unwrap().interruptions = u16::MAX;
    let update = MessageTimerUpdate { name: None, state: Some(TimerState::Paused), duration_ms: None };
    let m = timer_of(update_timer(&mut tomayto, 0, &update));
    assert_eq!(m.state, "Running");
    assert_eq!(m.interruptions, u16::MAX);
}
