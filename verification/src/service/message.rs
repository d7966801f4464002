//! The messages between the service's HTTP interface and the task that keeps
//! the timers, and the summary of a timer that they carry.

use crate::clock::{renderable, rfc3339_of, unix_epoch_view};
use crate::service::timer::{state_name, Timer, TimerState, TimerView};
use vstd::prelude::*;

verus! {

/// What the service tells about a timer: spans in whole milliseconds, the
/// state by name, and start and end times in RFC 3339 form where they are
/// set.
pub struct MessageTimer {
    pub id: u16,
    pub name: String,
    pub state: String,
    pub duration_ms: u128,
    pub elapsed_ms: u128,
    pub interruptions: u16,
    pub start_time: Option<String>,
    pub end_time: Option<String>,
}

/// The view of a `MessageTimer`.
pub struct MessageTimerView {
    pub id: u16,
    pub name: Seq<char>,
    pub state: Seq<char>,
    pub duration_ms: nat,
    pub elapsed_ms: nat,
    pub interruptions: u16,
    pub start_time: Option<Seq<char>>,
    pub end_time: Option<Seq<char>>,
}

/// The view of an optional text.
pub open spec fn text_view(t: Option<String>) -> Option<Seq<char>> {
    match t {
        Some(s) => Some(s@),
        None => None,
    }
}

impl View for MessageTimer {
    type V = MessageTimerView;

    open spec fn view(&self) -> MessageTimerView {
        MessageTimerView {
            id: self.id,
            name: self.name@,
            state: self.state@,
            duration_ms: self.duration_ms as nat,
            elapsed_ms: self.elapsed_ms as nat,
            interruptions: self.interruptions,
            start_time: text_view(self.start_time),
            end_time: text_view(self.end_time),
        }
    }
}

/// A wall time in RFC 3339 form, or nothing where it is the Unix epoch
/// (which stands for "not set") or a time chrono cannot render.
pub open spec fn stamp_text(t: int) -> Option<Seq<char>> {
    if t == unix_epoch_view() {
        None
    } else {
        rfc3339_of(t)
    }
}

/// What the service tells about the timer `t`.
pub open spec fn summary(t: TimerView) -> MessageTimerView {
    MessageTimerView {
        id: t.id,
        name: t.name,
        state: state_name(t.state),
        duration_ms: t.duration / 1_000_000,
        elapsed_ms: t.elapsed / 1_000_000,
        interruptions: t.interruptions,
        start_time: stamp_text(t.start_time),
        end_time: stamp_text(t.end_time),
    }
}

impl MessageTimer {
    /// What the service tells about the timer `t`.
    pub fn from_timer(t: &Timer) -> (m: MessageTimer)
        ensures
            m@ == summary(t@),
    {
        let mut message_timer = MessageTimer {
            id: t.id,
            name: t.name.clone(),
            state: t.state.to_string(),
            duration_ms: t.duration.as_millis(),
            elapsed_ms: t.elapsed.as_millis(),
            interruptions: t.interruptions,
            start_time: None,
            end_time: None,
        };
        if !t.start_time.is_unix_epoch() {
            message_timer.start_time = t.start_time.to_rfc3339();
        }
        if !t.end_time.is_unix_epoch() {
            message_timer.end_time = t.end_time.to_rfc3339();
        }
        message_timer
    }
}

/// A request to change a timer: a new name, state or span (in
/// milliseconds), each where it is given.
pub struct MessageTimerUpdate {
    pub name: Option<String>,
    pub state: Option<TimerState>,
    pub duration_ms: Option<u64>,
}

/// A message to or from the task that keeps the timers. The requests carry
/// the handle `R` on which the answer goes back; the answers are an error, the
/// summaries of all timers, or the summary of one.
pub enum Message<R> {
    ListTimers(R),
    GetTimer(R, u16),
    UpdateTimer(R, u16, MessageTimerUpdate),
    ReplaceTimer(R, u16, MessageTimerUpdate),
    Error(String),
    Timers(Vec<MessageTimer>),
    Timer(MessageTimer),
}

/// A timer's id and name, as the list of timers shows them.
pub struct TimerName {
    pub id: u16,
    pub name: String,
}

impl TimerName {
    /// The id and name of the summarised timer `t`.
    pub fn from_timer_msg(t: &MessageTimer) -> (n: Box<TimerName>)
        ensures
            n.id == t.id,
            n.name@ == t.name@,
    {
        Box::new(TimerName { id: t.id, name: t.name.clone() })
    }
}

/// A summary shows a start time exactly where the timer has been started
/// (its start time is no longer the Unix epoch) and chrono can render it,
/// and likewise an end time, and shows spans in whole milliseconds, rounded
/// down.
pub proof fn law_summary_shows_set_times(t: TimerView)
    ensures
        summary(t).start_time is None <==> t.start_time == unix_epoch_view() || !renderable(
            t.start_time,
        ),
        summary(t).end_time is None <==> t.end_time == unix_epoch_view() || !renderable(
            t.end_time,
        ),
        summary(t).duration_ms * 1_000_000 <= t.duration < (summary(t).duration_ms + 1)
            * 1_000_000,
        t.elapsed <= t.duration ==> summary(t).elapsed_ms <= summary(t).duration_ms,
{
    assert(t.elapsed <= t.duration ==> t.elapsed / 1_000_000 <= t.duration / 1_000_000) by (
    nonlinear_arith);
}

} // verus!
