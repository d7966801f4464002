//! The set of timers the service keeps, by id, and the answers it gives to
//! each request.

use crate::clock::{
    capped, clock_gave, clock_read, millis_to_nanos, monotonic_now, Reading, ReadingView, Span,
};
use crate::service::message::{summary, Message, MessageTimer, MessageTimerUpdate};
use crate::service::timer::{
    default_duration, default_name, transition_allowed, Timer, TimerState, TimerView,
};
use crate::text::{decimal, with_decimal};
use std::collections::HashMap;
use vstd::std_specs::hash::spec_hash_map_iter;
use vstd::std_specs::iter::IteratorSpec;
use std::time::Instant;
use vstd::prelude::*;

verus! {

broadcast use vstd::std_specs::hash::group_hash_axioms;

/// The timers of the service, by id.
pub struct Tomayto {
    pub timers: HashMap<u16, Timer>,
}

/// The answer to a request about a timer the service does not keep.
pub open spec fn missing_message(id: u16) -> Seq<char> {
    "timer "@ + decimal(id as nat) + " does not exist"@
}

/// `after` is `before` with the timer under `id` now viewed as `t`, and every
/// other timer as it was.
pub open spec fn replaced_at(
    before: Map<u16, Timer>,
    after: Map<u16, Timer>,
    id: u16,
    t: TimerView,
) -> bool {
    &&& after.dom() == before.dom().insert(id)
    &&& after[id]@ == t
    &&& forall|k: u16| k != id && #[trigger] before.contains_key(k) ==> after[k] == before[k]
}

/// The answer is the error about the missing timer `id`.
pub open spec fn is_missing_answer<R>(m: Message<R>, id: u16) -> bool {
    m matches Message::Error(e) && e@ == missing_message(id)
}

/// The answer is the summary of the timer `t`.
pub open spec fn is_timer_answer<R>(m: Message<R>, t: TimerView) -> bool {
    m matches Message::Timer(mt) && mt@ == summary(t)
}

/// The span a replacing timer gets: the requested one, or the default.
pub open spec fn replacement_duration(update: MessageTimerUpdate) -> nat {
    match update.duration_ms {
        Some(ms) => millis_to_nanos(ms as nat),
        None => default_duration(),
    }
}

/// The name a replacing timer gets: the requested one, or the default.
pub open spec fn replacement_name(id: u16, update: MessageTimerUpdate) -> Seq<char> {
    match update.name {
        Some(n) => n@,
        None => default_name(id),
    }
}

/// The timer that replaces timer `id` on `update`, its first step beginning
/// at `now`.
pub open spec fn replacement(id: u16, update: MessageTimerUpdate, now: Instant) -> TimerView {
    TimerView::fresh(
        id,
        replacement_name(id, update),
        replacement_duration(update),
        now,
    )
}

/// The timer `t` after an update on reading `r`: it moves to the requested
/// state where that change is allowed (and is not a pause refused because the
/// interruption counter is full), and stays as it is otherwise (also where no
/// state is requested). Name and span of the request are not read.
pub open spec fn updated(t: TimerView, update: MessageTimerUpdate, r: ReadingView) -> TimerView {
    match update.state {
        Some(s) => if transition_allowed(t.state, s) && !t.refused_at_limit(s, r) {
            t.after_set_state(s, r)
        } else {
            t
        },
        None => t,
    }
}

impl Tomayto {
    /// A service that keeps no timers.
    pub fn new() -> (t: Tomayto)
        ensures
            t.timers@ == Map::<u16, Timer>::empty(),
    {
        Tomayto { timers: HashMap::new() }
    }
}

/// The error about the missing timer `id`.
fn missing<R>(id: u16) -> (m: Message<R>)
    ensures
        is_missing_answer(m, id),
{
    Message::Error(with_decimal("timer ", id, " does not exist"))
}

/// `v` lists the summaries of the timers of `m`, each exactly once: `keys`
/// names every id of `m` once, and position `i` of `v` holds the summary of
/// the timer under `keys[i]`.
pub open spec fn lists_each_once(m: Map<u16, Timer>, v: Seq<MessageTimer>, keys: Seq<u16>) -> bool {
    &&& keys.len() == v.len()
    &&& keys.no_duplicates()
    &&& forall|i: int|
        0 <= i < keys.len() ==> m.contains_key(#[trigger] keys[i]) && v[i]@ == summary(
            m[keys[i]]@,
        )
    &&& forall|k: u16| m.contains_key(k) ==> #[trigger] keys.contains(k)
}

/// The summaries of all timers, each exactly once, in the order the map
/// holds them.
pub fn list_timers<R>(tomayto: &Tomayto) -> (m: Message<R>)
    ensures
        m matches Message::Timers(v) && {
            &&& v@.len() == tomayto.timers@.len()
            &&& exists|keys: Seq<u16>| #[trigger] lists_each_once(tomayto.timers@, v@, keys)
        },
{
    let mut vec: Vec<MessageTimer> = Vec::new();
    let ghost entries = spec_hash_map_iter(&tomayto.timers).remaining();
    for (_index, timer) in it: tomayto.timers.iter()
        invariant
            it.seq() == entries,
            entries.no_duplicates(),
            vec@.len() == it.index(),
            forall|i: int|
                0 <= i < it.index() ==> #[trigger] vec@[i]@ == summary((*it.seq()[i].1)@),
    {
        vec.push(MessageTimer::from_timer(timer));
    }
    proof {
        let m = tomayto.timers@;
        let keys = Seq::new(entries.len(), |i: int| *entries[i].0);
        assert forall|i: int| 0 <= i < keys.len() implies m.contains_key(#[trigger] keys[i])
            && vec@[i]@ == summary(m[keys[i]]@) by {
            assert(m.contains_key(*entries[i].0) && m[*entries[i].0] == *entries[i].1);
        }
        assert forall|i: int, j: int| 0 <= i < keys.len() && 0 <= j < keys.len() && i != j
            implies keys[i] != keys[j] by {
            assert(m.contains_key(*entries[i].0) && m[*entries[i].0] == *entries[i].1);
            assert(m.contains_key(*entries[j].0) && m[*entries[j].0] == *entries[j].1);
            if keys[i] == keys[j] {
                assert(entries[i] == entries[j]);
            }
        }
        assert forall|k: u16| m.contains_key(k) implies #[trigger] keys.contains(k) by {
            assert(entries.contains((&k, &m[k])));
            let j = choose|j: int| 0 <= j < entries.len() && entries[j] == (&k, &m[k]);
            assert(keys[j] == k);
        }
        assert(lists_each_once(m, vec@, keys));
    }
    Message::Timers(vec)
}

/// The summary of timer `id` after a tick on reading `r`, or the error
/// about a missing timer (then nothing changes).
pub fn get_timer_with<R>(tomayto: &mut Tomayto, id: u16, r: Reading) -> (m: Message<R>)
    requires
        old(tomayto).timers@.contains_key(id) ==> old(tomayto).timers@[id]@.can_tick(r@),
    ensures
        !old(tomayto).timers@.contains_key(id) ==> {
            &&& is_missing_answer(m, id)
            &&& final(tomayto).timers@ == old(tomayto).timers@
        },
        old(tomayto).timers@.contains_key(id) ==> {
            let t = old(tomayto).timers@[id]@.after_tick(r@);
            &&& replaced_at(old(tomayto).timers@, final(tomayto).timers@, id, t)
            &&& is_timer_answer(m, t)
        },
{
    let ghost before = tomayto.timers@;
    match tomayto.timers.remove(&id) {
        Some(mut timer) => {
            assert(tomayto.timers@ == before.remove(id));
            assert(timer == before[id]);
            timer.tick_with(r);
            let msg = MessageTimer::from_timer(&timer);
            tomayto.timers.insert(id, timer);
            assert(tomayto.timers@.dom() =~= before.dom().insert(id));
            Message::Timer(msg)
        },
        None => missing(id),
    }
}

/// The summary of timer `id` after a tick now, or the error about a missing
/// timer (then nothing changes).
pub fn get_timer<R>(tomayto: &mut Tomayto, id: u16) -> (m: Message<R>)
    requires
        old(tomayto).timers@.contains_key(id) && old(tomayto).timers@[id].state
            == TimerState::Running ==> old(tomayto).timers@[id].intervals < u64::MAX,
    ensures
        !old(tomayto).timers@.contains_key(id) ==> {
            &&& is_missing_answer(m, id)
            &&& final(tomayto).timers@ == old(tomayto).timers@
        },
        old(tomayto).timers@.contains_key(id) ==> exists|r: ReadingView|
            {
                let t = #[trigger] old(tomayto).timers@[id]@.after_tick(r);
                &&& replaced_at(old(tomayto).timers@, final(tomayto).timers@, id, t)
                &&& is_timer_answer(m, t)
            },
        old(tomayto).timers@.contains_key(id) && old(tomayto).timers@[id].state
            != TimerState::Running ==> {
            &&& replaced_at(
                old(tomayto).timers@,
                final(tomayto).timers@,
                id,
                old(tomayto).timers@[id]@,
            )
            &&& is_timer_answer(m, old(tomayto).timers@[id]@)
        },
        old(tomayto).timers@.contains_key(id) && old(tomayto).timers@[id].state
            == TimerState::Running ==> exists|r0: Reading|
            #![trigger clock_gave(old(tomayto).timers@[id].interval_start, r0)]
            {
                let t0 = old(tomayto).timers@[id];
                let t = t0@.after_tick(capped(r0@, t0@.elapsed));
                &&& clock_gave(t0.interval_start, r0)
                &&& replaced_at(old(tomayto).timers@, final(tomayto).timers@, id, t)
                &&& is_timer_answer(m, t)
            },
{
    let ghost before = tomayto.timers@;
    match tomayto.timers.remove(&id) {
        Some(mut timer) => {
            assert(tomayto.timers@ == before.remove(id));
            assert(timer == before[id]);
            let ghost t0 = timer;
            timer.tick();
            let ghost r0 = choose|r0: Reading|
                clock_gave(t0.interval_start, r0) && timer@ == t0@.after_tick(
                    capped(r0@, t0@.elapsed),
                );
            let ghost r = choose|r: ReadingView| timer@ == before[id]@.after_tick(r);
            let msg = MessageTimer::from_timer(&timer);
            tomayto.timers.insert(id, timer);
            assert(tomayto.timers@.dom() =~= before.dom().insert(id));
            assert(replaced_at(before, tomayto.timers@, id, before[id]@.after_tick(r)));
            proof {
                if t0.state == TimerState::Running {
                    assert(clock_gave(before[id].interval_start, r0));
                    assert(replaced_at(
                        before,
                        tomayto.timers@,
                        id,
                        t0@.after_tick(capped(r0@, t0@.elapsed)),
                    ));
                } else {
                    assert(replaced_at(before, tomayto.timers@, id, before[id]@));
                }
            }
            Message::Timer(msg)
        },
        None => missing(id),
    }
}

/// Applies `update` to timer `id` on reading `r` and answers its summary, or
/// the error about a missing timer (then nothing changes). A refused change
/// of state leaves the timer as it was and is not reported.
pub fn update_timer_with<R>(
    tomayto: &mut Tomayto,
    id: u16,
    update: &MessageTimerUpdate,
    r: Reading,
) -> (m: Message<R>)
    requires
        old(tomayto).timers@.contains_key(id) && update.state is Some ==> old(
            tomayto,
        ).timers@[id]@.can_set_state(update.state->0, r@),
    ensures
        !old(tomayto).timers@.contains_key(id) ==> {
            &&& is_missing_answer(m, id)
            &&& final(tomayto).timers@ == old(tomayto).timers@
        },
        old(tomayto).timers@.contains_key(id) ==> {
            let t = updated(old(tomayto).timers@[id]@, *update, r@);
            &&& replaced_at(old(tomayto).timers@, final(tomayto).timers@, id, t)
            &&& is_timer_answer(m, t)
        },
{
    let ghost before = tomayto.timers@;
    match tomayto.timers.remove(&id) {
        Some(mut timer) => {
            assert(tomayto.timers@ == before.remove(id));
            assert(timer == before[id]);
            match &update.state {
                Some(state) => {
                    match timer.set_state_with(*state, r) {
                        Err(_) => (),
                        Ok(()) => (),
                    }
                },
                None => (),
            }
            let msg = MessageTimer::from_timer(&timer);
            tomayto.timers.insert(id, timer);
            assert(tomayto.timers@.dom() =~= before.dom().insert(id));
            Message::Timer(msg)
        },
        None => missing(id),
    }
}

/// Applies `update` to timer `id` now and answers its summary, or the error
/// about a missing timer (then nothing changes). A refused change of state
/// leaves the timer as it was and is not reported.
pub fn update_timer<R>(tomayto: &mut Tomayto, id: u16, update: &MessageTimerUpdate) -> (m:
    Message<R>)
    requires
        old(tomayto).timers@.contains_key(id) && update.state == Some(TimerState::Paused) && old(
            tomayto,
        ).timers@[id].state == TimerState::Running ==> old(tomayto).timers@[id].intervals
            < u64::MAX,
    ensures
        !old(tomayto).timers@.contains_key(id) ==> {
            &&& is_missing_answer(m, id)
            &&& final(tomayto).timers@ == old(tomayto).timers@
        },
        old(tomayto).timers@.contains_key(id) ==> exists|r: ReadingView|
            {
                let t = #[trigger] updated(old(tomayto).timers@[id]@, *update, r);
                &&& replaced_at(old(tomayto).timers@, final(tomayto).timers@, id, t)
                &&& is_timer_answer(m, t)
            },
        old(tomayto).timers@.contains_key(id) && update.state is None ==> {
            &&& replaced_at(
                old(tomayto).timers@,
                final(tomayto).timers@,
                id,
                old(tomayto).timers@[id]@,
            )
            &&& is_timer_answer(m, old(tomayto).timers@[id]@)
        },
        old(tomayto).timers@.contains_key(id) && update.state is Some ==> exists|r0: Reading|
            #![trigger clock_gave(old(tomayto).timers@[id].interval_start, r0)]
            {
                let t0 = old(tomayto).timers@[id];
                let t = updated(t0@, *update, capped(r0@, t0@.elapsed));
                &&& clock_gave(t0.interval_start, r0)
                &&& replaced_at(old(tomayto).timers@, final(tomayto).timers@, id, t)
                &&& is_timer_answer(m, t)
            },
{
    let ghost before = tomayto.timers@;
    match tomayto.timers.remove(&id) {
        Some(mut timer) => {
            assert(tomayto.timers@ == before.remove(id));
            assert(timer == before[id]);
            let ghost start = timer@;
            let ghost t0 = timer;
            let ghost mut r = witness_of(start);
            match &update.state {
                Some(state) => {
                    match timer.set_state(*state) {
                        Err(_) => (),
                        Ok(()) => (),
                    }
                    proof {
                        let r0 = choose|r0: Reading|
                            #![trigger clock_gave(t0.interval_start, r0)]
                            clock_gave(t0.interval_start, r0) && timer@ == updated(
                                start,
                                *update,
                                capped(r0@, start.elapsed),
                            );
                        r = capped(r0@, start.elapsed);
                        assert(clock_gave(before[id].interval_start, r0));
                    }
                },
                None => (),
            }
            assert(timer@ == updated(start, *update, r));
            let msg = MessageTimer::from_timer(&timer);
            tomayto.timers.insert(id, timer);
            assert(tomayto.timers@.dom() =~= before.dom().insert(id));
            assert(replaced_at(before, tomayto.timers@, id, updated(start, *update, r)));
            Message::Timer(msg)
        },
        None => missing(id),
    }
}

/// Some reading, for a step that reads none.
spec fn witness_of(t: TimerView) -> ReadingView {
    ReadingView { instant: t.interval_start, wall: t.start_time, since: 0 }
}

/// Replaces timer `id` with a new one, named and timed as `update` asks (or
/// as a new timer is), whose first step begins at `now`, and answers its
/// summary; or answers the error about a missing timer (then nothing
/// changes). The requested state is not read.
pub fn replace_timer_at<R>(
    tomayto: &mut Tomayto,
    id: u16,
    update: &MessageTimerUpdate,
    now: Instant,
) -> (m: Message<R>)
    ensures
        !old(tomayto).timers@.contains_key(id) ==> {
            &&& is_missing_answer(m, id)
            &&& final(tomayto).timers@ == old(tomayto).timers@
        },
        old(tomayto).timers@.contains_key(id) ==> {
            let t = replacement(id, *update, now);
            &&& replaced_at(old(tomayto).timers@, final(tomayto).timers@, id, t)
            &&& is_timer_answer(m, t)
        },
{
    if tomayto.timers.contains_key(&id) {
        let mut new_timer = Timer::new_at(id, now);
        match &update.name {
            Some(name) => {
                new_timer.name = name.clone();
            },
            None => (),
        }
        match &update.duration_ms {
            Some(duration) => {
                new_timer.duration = Span::from_millis(*duration);
            },
            None => (),
        }
        let ghost before = tomayto.timers@;
        assert(new_timer@ == replacement(id, *update, now));
        let msg = MessageTimer::from_timer(&new_timer);
        tomayto.timers.remove(&id);
        tomayto.timers.insert(id, new_timer);
        assert(tomayto.timers@ == before.remove(id).insert(id, new_timer));
        assert(tomayto.timers@.dom() =~= before.dom().insert(id));
        Message::Timer(msg)
    } else {
        missing(id)
    }
}

/// Replaces timer `id` with a new one, named and timed as `update` asks (or
/// as a new timer is), whose first step begins now, and answers its summary;
/// or answers the error about a missing timer (then nothing changes). The
/// requested state is not read.
pub fn replace_timer<R>(tomayto: &mut Tomayto, id: u16, update: &MessageTimerUpdate) -> (m:
    Message<R>)
    ensures
        !old(tomayto).timers@.contains_key(id) ==> {
            &&& is_missing_answer(m, id)
            &&& final(tomayto).timers@ == old(tomayto).timers@
        },
        old(tomayto).timers@.contains_key(id) ==> exists|now: Instant|
            {
                let t = #[trigger] replacement(id, *update, now);
                &&& replaced_at(old(tomayto).timers@, final(tomayto).timers@, id, t)
                &&& is_timer_answer(m, t)
            },
        old(tomayto).timers@.contains_key(id) ==> exists|now: Instant|
            #![trigger clock_read(now)]
            {
                let t = replacement(id, *update, now);
                &&& clock_read(now)
                &&& replaced_at(old(tomayto).timers@, final(tomayto).timers@, id, t)
                &&& is_timer_answer(m, t)
            },
{
    let now = monotonic_now();
    let m = replace_timer_at(tomayto, id, update, now);
    assert(clock_read(now));
    assert(replacement(id, *update, now) == replacement(id, *update, now));
    m
}

/// A replaced timer has not run: it is in its initial state, with nothing
/// elapsed, and reading it (which ticks it) leaves it as it is, so a read
/// right after a replacement answers the replacement.
pub proof fn law_replacement_reads_back(
    id: u16,
    update: MessageTimerUpdate,
    now: Instant,
    r: ReadingView,
)
    ensures
        replacement(id, update, now).state == TimerState::Initial,
        replacement(id, update, now).elapsed == 0,
        replacement(id, update, now).id == id,
        replacement(id, update, now).after_tick(r) == replacement(id, update, now),
{
}

/// An update changes at most the state of a timer and what running adds;
/// it keeps its id, name and span, and one that asks for no state leaves the
/// timer as it is.
pub proof fn law_update_keeps_identity(t: TimerView, update: MessageTimerUpdate, r: ReadingView)
    ensures
        updated(t, update, r).id == t.id,
        updated(t, update, r).name == t.name,
        updated(t, update, r).duration == t.duration,
        update.state is None ==> updated(t, update, r) == t,
        update.state matches Some(s) && !transition_allowed(t.state, s) ==> updated(t, update, r)
            == t,
{
}

/// An update that asks a paused timer to run resumes it: it runs again from
/// the reading, with the time it ran and its interruptions kept.
pub proof fn law_update_resumes_paused(t: TimerView, update: MessageTimerUpdate, r: ReadingView)
    requires
        t.state == TimerState::Paused,
        update.state == Some(TimerState::Running),
    ensures
        updated(t, update, r).state == TimerState::Running,
        updated(t, update, r).elapsed == t.elapsed,
        updated(t, update, r).interruptions == t.interruptions,
        updated(t, update, r).interval_start == r.instant,
{
}

/// An update that asks a completed timer for its initial state resets it: it
/// becomes the timer a new one would be, with the same id, name and span, its
/// first step beginning at the reading.
pub proof fn law_update_resets_completed(t: TimerView, update: MessageTimerUpdate, r: ReadingView)
    requires
        t.state == TimerState::Completed,
        update.state == Some(TimerState::Initial),
    ensures
        updated(t, update, r) == TimerView::fresh(t.id, t.name, t.duration, r.instant),
        updated(t, update, r).state == TimerState::Initial,
        updated(t, update, r).elapsed == 0,
{
}

/// An update that asks an initial timer to run starts it: it runs from the
/// reading, its start stamped with the reading's wall time.
pub proof fn law_update_starts_initial(t: TimerView, update: MessageTimerUpdate, r: ReadingView)
    requires
        t.state == TimerState::Initial,
        update.state == Some(TimerState::Running),
    ensures
        updated(t, update, r).state == TimerState::Running,
        updated(t, update, r).start_time == r.wall,
        updated(t, update, r).interval_start == r.instant,
{
}

/// An update asking for an allowed change of state (and not a pause refused
/// at the interruption limit) reaches that state, or, for a pause that brings
/// the timer to its span, completes it.
pub proof fn law_update_reaches_requested_state(
    t: TimerView,
    update: MessageTimerUpdate,
    r: ReadingView,
    s: TimerState,
)
    requires
        update.state == Some(s),
        transition_allowed(t.state, s),
        !t.refused_at_limit(s, r),
    ensures
        updated(t, update, r).state == s || (s == TimerState::Paused && updated(
            t,
            update,
            r,
        ).state == TimerState::Completed),
        updated(t, update, r).id == t.id,
{
}

} // verus!
