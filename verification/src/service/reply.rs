//! What the HTTP interface answers: for each endpoint, the status and body
//! made of the message the timer task sent back, or of the failure to get one.

use crate::service::message::{Message, MessageTimer, TimerName};
use vstd::prelude::*;

verus! {

/// How long an endpoint waits for the timer task's answer, in milliseconds.
pub const TIMEOUT_MS: u64 = 250;

/// The HTTP status `200 OK`.
pub const STATUS_OK: u16 = 200;

/// The HTTP status `202 Accepted`.
pub const STATUS_ACCEPTED: u16 = 202;

/// The HTTP status `500 Internal Server Error`.
pub const STATUS_INTERNAL_SERVER_ERROR: u16 = 500;

/// The endpoints of the HTTP interface.
#[derive(Clone, Copy, Debug, PartialEq, Eq, Structural)]
pub enum Endpoint {
    /// `GET /timers`
    ListTimers,
    /// `GET /timers/<id>`
    GetTimer,
    /// `PATCH /timers/<id>`
    PatchTimer,
    /// `PUT /timers/<id>`
    PutTimer,
}

/// The body of a reply, before it is written as JSON.
pub enum ReplyBody {
    /// `{"error": ...}`
    Error(String),
    /// The id and name of each timer.
    TimerNames(Vec<Box<TimerName>>),
    /// One timer's summary.
    Timer(MessageTimer),
}

/// A reply: its HTTP status and its body.
pub struct Reply {
    pub status: u16,
    pub body: ReplyBody,
}

/// The reply is an error with the given status and text.
pub open spec fn is_error_reply(r: Reply, status: u16, text: Seq<char>) -> bool {
    &&& r.status == status
    &&& r.body matches ReplyBody::Error(e) && e@ == text
}

/// The text of the reply when the request could not be handed to the timer
/// task, which said `detail`.
pub open spec fn send_failed_text(detail: Seq<char>) -> Seq<char> {
    "failed to send message to main task: "@ + detail
}

/// The text of the reply when the timer task did not answer in time.
pub open spec fn timed_out_text() -> Seq<char> {
    "did not receive message from main task withn 250ms timeout"@
}

/// The text of the reply when the timer task's answer does not fit the
/// request.
pub open spec fn unexpected_text() -> Seq<char> {
    "received unexpected message type from main task"@
}

/// The status of a reply that carries one timer: `202 Accepted` for the
/// endpoints that change it, `200 OK` for the one that reads it.
pub open spec fn timer_status(endpoint: Endpoint) -> u16 {
    if endpoint == Endpoint::GetTimer {
        STATUS_OK
    } else {
        STATUS_ACCEPTED
    }
}

/// The reply when the request could not be handed to the timer task, which
/// said `detail`.
pub fn send_failed(detail: &str) -> (r: Reply)
    ensures
        is_error_reply(r, STATUS_INTERNAL_SERVER_ERROR, send_failed_text(detail@)),
{
    let mut text = String::from_str("failed to send message to main task: ");
    text.append(detail);
    Reply { status: STATUS_INTERNAL_SERVER_ERROR, body: ReplyBody::Error(text) }
}

/// The reply when the timer task did not answer within `TIMEOUT_MS`.
pub fn timed_out() -> (r: Reply)
    ensures
        is_error_reply(r, STATUS_INTERNAL_SERVER_ERROR, timed_out_text()),
{
    Reply {
        status: STATUS_INTERNAL_SERVER_ERROR,
        body: ReplyBody::Error(
            String::from_str("did not receive message from main task withn 250ms timeout"),
        ),
    }
}

/// The reply for `endpoint` to the timer task's answer: `None` where the
/// task dropped the request without answering. The list endpoint shows the
/// id and name of each timer; the others show one timer; an error answer is
/// passed on; any other answer is unexpected.
pub fn answer_reply<R>(endpoint: Endpoint, answer: Option<Message<R>>) -> (r: Reply)
    ensures
        answer matches Some(Message::Error(e)) ==> is_error_reply(
            r,
            STATUS_INTERNAL_SERVER_ERROR,
            e@,
        ),
        endpoint == Endpoint::ListTimers ==> (answer matches Some(Message::Timers(timers)) ==> {
            &&& r.status == STATUS_OK
            &&& r.body matches ReplyBody::TimerNames(names) && names@.len() == timers@.len() && (
            forall|i: int|
                0 <= i < names@.len() ==> #[trigger] names@[i].id == timers@[i].id
                    && names@[i].name@ == timers@[i].name@)
        }),
        endpoint != Endpoint::ListTimers ==> (answer matches Some(Message::Timer(t)) ==> {
            &&& r.status == timer_status(endpoint)
            &&& r.body matches ReplyBody::Timer(body) && body == t
        }),
        !(answer matches Some(Message::Error(_))) && !(endpoint == Endpoint::ListTimers
            && answer matches Some(Message::Timers(_))) && !(endpoint != Endpoint::ListTimers
            && answer matches Some(Message::Timer(_))) ==> is_error_reply(
            r,
            STATUS_INTERNAL_SERVER_ERROR,
            unexpected_text(),
        ),
{
    match answer {
        Some(Message::Timers(timers)) if endpoint == Endpoint::ListTimers => {
            let mut names: Vec<Box<TimerName>> = Vec::new();
            let mut i: usize = 0;
            while i < timers.len()
                invariant
                    i <= timers@.len(),
                    names@.len() == i,
                    forall|j: int|
                        0 <= j < i ==> #[trigger] names@[j].id == timers@[j].id
                            && names@[j].name@ == timers@[j].name@,
                decreases timers@.len() - i,
            {
                names.push(TimerName::from_timer_msg(&timers[i]));
                i = i + 1;
            }
            Reply { status: STATUS_OK, body: ReplyBody::TimerNames(names) }
        },
        Some(Message::Timer(timer)) if endpoint != Endpoint::ListTimers => {
            let status = if endpoint == Endpoint::GetTimer {
                STATUS_OK
            } else {
                STATUS_ACCEPTED
            };
            Reply { status, body: ReplyBody::Timer(timer) }
        },
        Some(Message::Error(err)) => Reply {
            status: STATUS_INTERNAL_SERVER_ERROR,
            body: ReplyBody::Error(err),
        },
        _ => Reply {
            status: STATUS_INTERNAL_SERVER_ERROR,
            body: ReplyBody::Error(
                String::from_str("received unexpected message type from main task"),
            ),
        },
    }
}

} // verus!
