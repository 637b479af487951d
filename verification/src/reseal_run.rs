//! Histories of a resealing worker that runs, and what holds of all of them.
//!
//! A history is a sequence of events: migration notifications, which may come
//! at any time, and the inputs of [`HardwareReseal::run`].

use crate::hardware_reseal::{
    later, HardwareReseal, Instant, MigrationNotification, RequestsPoll, ResealPoll, RunPhase,
    StateRequest, WorkerAction, WorkerInput,
};
use vstd::prelude::*;

verus! {

/// Something that happens to a worker that runs.
pub enum RunEvent {
    /// A migration notification.
    Notified,
    /// An input, and the jitter that is drawn for it.
    Ran(WorkerInput, u8),
}

impl RunEvent {
    /// Whether a worker is polled and finds its requests so.
    pub open spec fn polls(self, found: RequestsPoll) -> bool {
        self matches RunEvent::Ran(WorkerInput::Poll { requests, .. }, _) && requests == found
    }

    /// Whether a state request is applied.
    pub open spec fn applies(self) -> bool {
        self matches RunEvent::Ran(WorkerInput::Request(_), _)
    }

    /// Whether a start is applied.
    pub open spec fn starts(self) -> bool {
        self matches RunEvent::Ran(WorkerInput::Request(request), _) && request is Start
    }

    /// Whether a stop is applied.
    pub open spec fn stops(self) -> bool {
        self matches RunEvent::Ran(WorkerInput::Request(request), _) && request is Stop
    }

    /// Whether a reset is applied.
    pub open spec fn resets(self) -> bool {
        self matches RunEvent::Ran(WorkerInput::Request(request), _) && request is Reset
    }

    /// Whether an attempt ends.
    pub open spec fn ends_attempt(self) -> bool {
        self matches RunEvent::Ran(WorkerInput::AttemptEnded { .. }, _)
    }
}

/// A worker and its notification.
pub struct RunState {
    pub worker: HardwareReseal,
    pub notification: MigrationNotification,
}

impl RunState {
    /// Whether the worker is as it was created. Its notification may be older.
    pub open spec fn fresh(self) -> bool {
        &&& self.worker.phase == RunPhase::Waiting
        &&& !self.worker.schedule.running
        &&& !self.worker.schedule.force_reseal
    }

    /// Whether this can happen now.
    pub open spec fn accepts(self, event: RunEvent) -> bool {
        match event {
            RunEvent::Notified => true,
            RunEvent::Ran(input, _) => self.worker.spec_accepts(input),
        }
    }

    /// The state after an event.
    pub open spec fn next(self, event: RunEvent) -> RunState {
        match event {
            RunEvent::Notified => RunState {
                notification: self.notification.spec_notify(),
                ..self
            },
            RunEvent::Ran(input, jitter) => RunState {
                worker: self.worker.spec_run(self.notification, input, jitter),
                notification: self.worker.spec_run_latch(self.notification, input),
            },
        }
    }

    /// What the worker does on an event; a notification alone does nothing.
    pub open spec fn action(self, event: RunEvent) -> Option<WorkerAction> {
        match event {
            RunEvent::Notified => None,
            RunEvent::Ran(input, _) => Some(self.worker.spec_action(self.notification, input)),
        }
    }

    /// Whether an event makes the worker ask for an attempt.
    pub open spec fn asks_for_attempt(self, event: RunEvent) -> bool {
        self.action(event) == Some(WorkerAction::Next(ResealPoll::Attempt))
    }
}

/// The state after `events`.
pub open spec fn state_after(start: RunState, events: Seq<RunEvent>) -> RunState
    decreases events.len(),
{
    if events.len() == 0 {
        start
    } else {
        state_after(start, events.drop_last()).next(events.last())
    }
}

/// Whether `events` can happen in this order.
pub open spec fn possible(start: RunState, events: Seq<RunEvent>) -> bool
    decreases events.len(),
{
    events.len() == 0 || (possible(start, events.drop_last()) && state_after(
        start,
        events.drop_last(),
    ).accepts(events.last()))
}

/// Whether the `i`-th of `events` makes the worker ask for an attempt.
pub open spec fn attempt_asked_at(start: RunState, events: Seq<RunEvent>, i: int) -> bool {
    state_after(start, events.take(i)).asks_for_attempt(events[i])
}

/// How many attempts are asked for in `events`.
pub open spec fn attempts_asked(start: RunState, events: Seq<RunEvent>) -> nat
    decreases events.len(),
{
    if events.len() == 0 {
        0
    } else {
        attempts_asked(start, events.drop_last()) + (if state_after(
            start,
            events.drop_last(),
        ).asks_for_attempt(events.last()) {
            1nat
        } else {
            0
        })
    }
}

/// How many of `events` are of a kind.
pub open spec fn count(events: Seq<RunEvent>, kind: spec_fn(RunEvent) -> bool) -> nat
    decreases events.len(),
{
    if events.len() == 0 {
        0
    } else {
        count(events.drop_last(), kind) + (if kind(events.last()) {
            1nat
        } else {
            0
        })
    }
}

/// Where no attempt is asked for up to the last event, nor at it, none is.
proof fn lemma_still_no_attempt(
    start: RunState,
    before: Seq<RunEvent>,
    meanwhile: Seq<RunEvent>,
)
    requires
        meanwhile.len() > 0,
        forall|i: int|
            before.len() <= i < before.len() + meanwhile.len() - 1 ==> !#[trigger] attempt_asked_at(
                start,
                before + meanwhile.drop_last(),
                i,
            ),
        !state_after(start, before + meanwhile.drop_last()).asks_for_attempt(meanwhile.last()),
    ensures
        forall|i: int|
            before.len() <= i < before.len() + meanwhile.len() ==> !#[trigger] attempt_asked_at(
                start,
                before + meanwhile,
                i,
            ),
{
    let events = before + meanwhile;
    let front = before + meanwhile.drop_last();
    assert forall|i: int| before.len() <= i < events.len() implies !#[trigger] attempt_asked_at(
        start,
        events,
        i,
    ) by {
        if i < events.len() - 1 {
            assert(events.take(i) =~= front.take(i));
            assert(events[i] == front[i]);
            assert(!attempt_asked_at(start, front, i));
        } else {
            assert(events.take(i) =~= front);
        }
    }
}

/// What a worker does without a start since its stop, from one event to the
/// next.
proof fn lemma_stopped(start: RunState, before: Seq<RunEvent>, meanwhile: Seq<RunEvent>)
    requires
        possible(start, before + meanwhile),
        !state_after(start, before).worker.schedule.running,
        state_after(start, before).worker.phase != RunPhase::Attempting,
        forall|i: int| 0 <= i < meanwhile.len() ==> !(#[trigger] meanwhile[i]).starts(),
    ensures
        ({
            let end = state_after(start, before + meanwhile);
            &&& !end.worker.schedule.running
            &&& end.worker.phase != RunPhase::Attempting
            &&& end.notification.pending <==> state_after(start, before).notification.pending
                || exists|i: int| 0 <= i < meanwhile.len() && #[trigger] meanwhile[i] is Notified
        }),
        forall|i: int|
            before.len() <= i < before.len() + meanwhile.len() ==> !#[trigger] attempt_asked_at(
                start,
                before + meanwhile,
                i,
            ),
    decreases meanwhile.len(),
{
    let events = before + meanwhile;
    if meanwhile.len() == 0 {
        assert(events =~= before);
    } else {
        let front = meanwhile.drop_last();
        assert(events.drop_last() =~= before + front);
        assert forall|i: int| 0 <= i < front.len() implies !(#[trigger] front[i]).starts() by {
            assert(front[i] == meanwhile[i]);
        }
        lemma_stopped(start, before, front);
        let last = meanwhile.last();
        assert(events.last() == last);
        assert(!meanwhile[meanwhile.len() - 1].starts());
        if last is Notified {
            assert(meanwhile[meanwhile.len() - 1] is Notified);
        }
        assert((exists|i: int| 0 <= i < meanwhile.len() && #[trigger] meanwhile[i] is Notified)
            <==> (last is Notified || exists|i: int|
            0 <= i < front.len() && #[trigger] front[i] is Notified)) by {
            if exists|i: int| 0 <= i < front.len() && #[trigger] front[i] is Notified {
                let i = choose|i: int| 0 <= i < front.len() && #[trigger] front[i] is Notified;
                assert(meanwhile[i] is Notified);
            }
            if exists|i: int| 0 <= i < meanwhile.len() && #[trigger] meanwhile[i] is Notified {
                let i = choose|i: int|
                    0 <= i < meanwhile.len() && #[trigger] meanwhile[i] is Notified;
                assert(i == meanwhile.len() - 1 || front[i] is Notified);
            }
        }
        lemma_still_no_attempt(start, before, meanwhile);
    }
}

/// From its creation, or from a stop, a worker asks for no attempt before a
/// start is applied, whatever else happens, and it consumes no notification:
/// one made meanwhile is still pending.
pub proof fn law_no_attempt_without_a_start(
    start: RunState,
    before: Seq<RunEvent>,
    meanwhile: Seq<RunEvent>,
)
    requires
        start.fresh(),
        possible(start, before + meanwhile),
        before.len() == 0 || before.last().stops(),
        forall|i: int| 0 <= i < meanwhile.len() ==> !(#[trigger] meanwhile[i]).starts(),
    ensures
        forall|i: int|
            before.len() <= i < before.len() + meanwhile.len() ==> !#[trigger] attempt_asked_at(
                start,
                before + meanwhile,
                i,
            ),
        state_after(start, before + meanwhile).notification.pending <==> state_after(
            start,
            before,
        ).notification.pending || exists|i: int|
            0 <= i < meanwhile.len() && #[trigger] meanwhile[i] is Notified,
        !state_after(start, before + meanwhile).worker.schedule.running,
{
    lemma_stopped(start, before, meanwhile);
}

/// A notification that is pending when a start is applied is acted on by the
/// next poll that finds no state request: it is consumed, and the attempt is
/// asked for, at once or for when the wait of an earlier attempt is over.
pub proof fn law_start_acts_on_pending_notification(
    state: RunState,
    first: u8,
    second: u8,
    now: Instant,
)
    requires
        state.worker.phase == RunPhase::Applying,
        state.notification.pending,
    ensures
        ({
            let start = RunEvent::Ran(WorkerInput::Request(StateRequest::Start), first);
            let poll = RunEvent::Ran(
                WorkerInput::Poll { requests: RequestsPoll::Pending, now },
                second,
            );
            let started = state.next(start);
            let polled = started.next(poll);
            let not_before = state.worker.schedule.not_before;
            &&& state.accepts(start)
            &&& started.notification.pending
            &&& started.accepts(poll)
            &&& !polled.notification.pending
            &&& polled.worker.schedule.force_reseal
            &&& started.action(poll) == Some(
                WorkerAction::Next(
                    if now.nanos >= not_before.nanos {
                        ResealPoll::Attempt
                    } else {
                        ResealPoll::WaitUntil(later(now, not_before))
                    },
                ),
            )
        }),
{
}

/// Whenever an attempt is asked for, the worker runs, work is pending, its time
/// has come, and no state request was there.
pub proof fn law_attempt_needs_pending_work_that_is_due(state: RunState, event: RunEvent)
    requires
        state.accepts(event),
        state.asks_for_attempt(event),
    ensures
        state.worker.phase == RunPhase::Waiting,
        state.worker.schedule.running,
        event.polls(RequestsPoll::Pending),
        state.worker.schedule.force_reseal || state.notification.pending,
        state.next(event).worker.schedule.force_reseal,
        event->Ran_0->Poll_now.nanos >= state.next(event).worker.schedule.spec_due().nanos,
        event->Ran_0->Poll_now.nanos >= state.worker.schedule.not_before.nanos,
{
}

/// A running worker that has looked for work is woken by the next
/// notification, whether it found any or not: the notification was told that
/// somebody waits.
pub proof fn law_notification_wakes_a_worker_that_looked(
    state: RunState,
    now: Instant,
    jitter: u8,
)
    requires
        state.worker.phase == RunPhase::Waiting,
        state.worker.schedule.running,
    ensures
        ({
            let poll = RunEvent::Ran(
                WorkerInput::Poll { requests: RequestsPoll::Pending, now },
                jitter,
            );
            &&& state.accepts(poll)
            &&& state.next(poll).notification.spec_wakes()
        }),
{
}

/// Only a start or a stop changes whether the worker runs: no poll, no
/// notification, no other request and no end of an attempt does.
pub proof fn law_only_start_and_stop_change_running(
    start: RunState,
    before: Seq<RunEvent>,
    meanwhile: Seq<RunEvent>,
)
    requires
        possible(start, before + meanwhile),
        forall|i: int|
            0 <= i < meanwhile.len() ==> !(#[trigger] meanwhile[i]).starts()
                && !meanwhile[i].stops(),
    ensures
        state_after(start, before + meanwhile).worker.schedule.running == state_after(
            start,
            before,
        ).worker.schedule.running,
    decreases meanwhile.len(),
{
    let events = before + meanwhile;
    if meanwhile.len() == 0 {
        assert(events =~= before);
    } else {
        let front = meanwhile.drop_last();
        assert(events.drop_last() =~= before + front);
        assert forall|i: int| 0 <= i < front.len() implies !(#[trigger] front[i]).starts()
            && !front[i].stops() by {
            assert(front[i] == meanwhile[i]);
        }
        law_only_start_and_stop_change_running(start, before, front);
        assert(events.last() == meanwhile[meanwhile.len() - 1]);
    }
}

/// A worker that was started and not stopped since, whatever attempts have
/// succeeded or failed, acts on a pending notification at the first poll that
/// finds no state request once the wait of its last attempt is over: it
/// consumes the notification and asks for an attempt.
pub proof fn law_started_worker_acts_on_notifications(
    start: RunState,
    before: Seq<RunEvent>,
    meanwhile: Seq<RunEvent>,
    now: Instant,
    jitter: u8,
)
    requires
        possible(start, before + meanwhile),
        before.len() > 0,
        before.last().starts(),
        forall|i: int| 0 <= i < meanwhile.len() ==> !(#[trigger] meanwhile[i]).stops(),
        state_after(start, before + meanwhile).worker.phase == RunPhase::Waiting,
        state_after(start, before + meanwhile).notification.pending,
        now.nanos >= state_after(start, before + meanwhile).worker.schedule.not_before.nanos,
    ensures
        ({
            let end = state_after(start, before + meanwhile);
            let poll = RunEvent::Ran(
                WorkerInput::Poll { requests: RequestsPoll::Pending, now },
                jitter,
            );
            &&& end.worker.schedule.running
            &&& end.accepts(poll)
            &&& end.asks_for_attempt(poll)
            &&& !end.next(poll).notification.pending
        }),
{
    lemma_started(start, before, meanwhile);
}

/// A worker that was started runs until it is stopped.
proof fn lemma_started(start: RunState, before: Seq<RunEvent>, meanwhile: Seq<RunEvent>)
    requires
        possible(start, before + meanwhile),
        before.len() > 0,
        before.last().starts(),
        forall|i: int| 0 <= i < meanwhile.len() ==> !(#[trigger] meanwhile[i]).stops(),
    ensures
        state_after(start, before + meanwhile).worker.schedule.running,
    decreases meanwhile.len(),
{
    let events = before + meanwhile;
    if meanwhile.len() == 0 {
        assert(events =~= before);
    } else {
        let front = meanwhile.drop_last();
        assert(events.drop_last() =~= before + front);
        assert forall|i: int| 0 <= i < front.len() implies !(#[trigger] front[i]).stops() by {
            assert(front[i] == meanwhile[i]);
        }
        lemma_started(start, before, front);
        assert(events.last() == meanwhile[meanwhile.len() - 1]);
    }
}

/// Where no work is pending and no notification either, no attempt is asked
/// for until there is a notification or a reset, and none becomes pending.
pub proof fn law_no_attempt_without_cause(
    start: RunState,
    before: Seq<RunEvent>,
    meanwhile: Seq<RunEvent>,
)
    requires
        possible(start, before + meanwhile),
        !state_after(start, before).worker.schedule.force_reseal,
        !state_after(start, before).notification.pending,
        state_after(start, before).worker.phase != RunPhase::Attempting,
        forall|i: int|
            0 <= i < meanwhile.len() ==> !(#[trigger] meanwhile[i] is Notified)
                && !meanwhile[i].resets(),
    ensures
        ({
            let end = state_after(start, before + meanwhile);
            &&& !end.worker.schedule.force_reseal
            &&& !end.notification.pending
            &&& end.worker.phase != RunPhase::Attempting
        }),
        forall|i: int|
            before.len() <= i < before.len() + meanwhile.len() ==> !#[trigger] attempt_asked_at(
                start,
                before + meanwhile,
                i,
            ),
    decreases meanwhile.len(),
{
    let events = before + meanwhile;
    if meanwhile.len() == 0 {
        assert(events =~= before);
    } else {
        let front = meanwhile.drop_last();
        assert(events.drop_last() =~= before + front);
        assert forall|i: int| 0 <= i < front.len() implies !(#[trigger] front[i] is Notified)
            && !front[i].resets() by {
            assert(front[i] == meanwhile[i]);
        }
        law_no_attempt_without_cause(start, before, front);
        let last = meanwhile.len() - 1;
        assert(events.last() == meanwhile[last]);
        assert(!(meanwhile[last] is Notified));
        lemma_still_no_attempt(start, before, meanwhile);
    }
}

/// A state request that is ready comes before a timer that is due and a
/// notification that is pending, and so does the end of the requests: neither
/// the schedule nor the notification is touched.
pub proof fn law_requests_come_first(
    state: RunState,
    requests: RequestsPoll,
    now: Instant,
    jitter: u8,
)
    requires
        state.worker.phase == RunPhase::Waiting,
        requests != RequestsPoll::Pending,
    ensures
        ({
            let poll = RunEvent::Ran(WorkerInput::Poll { requests, now }, jitter);
            let next = state.next(poll);
            &&& state.accepts(poll)
            &&& state.action(poll) == Some(
                WorkerAction::Next(
                    if requests == RequestsPoll::Ready {
                        ResealPoll::State
                    } else {
                        ResealPoll::Return
                    },
                ),
            )
            &&& next.notification == state.notification
            &&& next.worker.schedule == state.worker.schedule
            &&& requests == RequestsPoll::Ready ==> next.worker.phase == RunPhase::Applying
        }),
{
}

/// Every state request that a poll finds ready is applied, once and before the
/// worker is polled again: at any point, all but the one at hand were.
pub proof fn law_every_request_is_applied(start: RunState, events: Seq<RunEvent>)
    requires
        start.fresh(),
        possible(start, events),
    ensures
        count(events, |event: RunEvent| event.polls(RequestsPoll::Ready)) == count(
            events,
            |event: RunEvent| event.applies(),
        ) + (if state_after(start, events).worker.phase == RunPhase::Applying {
            1nat
        } else {
            0
        }),
    decreases events.len(),
{
    if events.len() > 0 {
        law_every_request_is_applied(start, events.drop_last());
    }
}

/// Every attempt that is asked for is awaited: at any point, all but the one at
/// hand have ended.
pub proof fn law_every_attempt_is_awaited(start: RunState, events: Seq<RunEvent>)
    requires
        start.fresh(),
        possible(start, events),
    ensures
        attempts_asked(start, events) == count(events, |event: RunEvent| event.ends_attempt()) + (
        if state_after(start, events).worker.phase == RunPhase::Attempting {
            1nat
        } else {
            0
        }),
    decreases events.len(),
{
    if events.len() > 0 {
        law_every_attempt_is_awaited(start, events.drop_last());
    }
}

/// While an attempt is awaited nothing can happen but notifications and its
/// end: no state request is applied in the middle of it.
pub proof fn law_attempts_are_not_interrupted(state: RunState, event: RunEvent)
    requires
        state.worker.phase == RunPhase::Attempting,
        state.accepts(event),
    ensures
        event is Notified || event.ends_attempt(),
        event is Notified ==> state.next(event).worker == state.worker,
{
}

/// A failed attempt does not end the run: the worker goes on with its work
/// pending, and asks for an attempt again at the first poll that finds no state
/// request once the wait is over.
pub proof fn law_failed_attempt_is_retried(
    state: RunState,
    ended_at: Instant,
    jitter: u8,
    polled_at: Instant,
)
    requires
        state.accepts(RunEvent::Ran(WorkerInput::AttemptEnded { now: ended_at, success: false }, jitter)),
    ensures
        ({
            let ended = RunEvent::Ran(
                WorkerInput::AttemptEnded { now: ended_at, success: false },
                jitter,
            );
            let poll = RunEvent::Ran(
                WorkerInput::Poll { requests: RequestsPoll::Pending, now: polled_at },
                jitter,
            );
            let next = state.next(ended);
            &&& next.worker.phase == RunPhase::Waiting
            &&& next.worker.schedule.force_reseal
            &&& next.worker.schedule.running == state.worker.schedule.running
            &&& next.notification == state.notification
            &&& next.accepts(poll)
            &&& next.worker.schedule.running && polled_at.nanos
                >= next.worker.schedule.spec_due().nanos ==> next.asks_for_attempt(poll)
        }),
{
}

/// The run ends exactly when a poll finds the state requests closed.
pub proof fn law_run_ends_exactly_when_requests_close(start: RunState, events: Seq<RunEvent>)
    requires
        start.fresh(),
        possible(start, events),
    ensures
        state_after(start, events).worker.phase == RunPhase::Returned <==> exists|i: int|
            0 <= i < events.len() && (#[trigger] events[i]).polls(RequestsPoll::Closed),
    decreases events.len(),
{
    if events.len() > 0 {
        let front = events.drop_last();
        let last = events.len() - 1;
        law_run_ends_exactly_when_requests_close(start, front);
        if state_after(start, front).worker.phase == RunPhase::Returned {
            let i = choose|i: int|
                0 <= i < front.len() && (#[trigger] front[i]).polls(RequestsPoll::Closed);
            assert(events[i].polls(RequestsPoll::Closed));
        }
        if events[last].polls(RequestsPoll::Closed) {
        } else if exists|i: int|
            0 <= i < events.len() && (#[trigger] events[i]).polls(RequestsPoll::Closed) {
            let i = choose|i: int|
                0 <= i < events.len() && (#[trigger] events[i]).polls(RequestsPoll::Closed);
            assert(front[i].polls(RequestsPoll::Closed));
        }
    }
}

} // verus!
