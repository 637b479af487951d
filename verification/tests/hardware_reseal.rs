use openhcl_reseal::broker::{BrokerFileId, VmgsBrokerError, VmgsBrokerRpc};
use openhcl_reseal::client::{VmgsClient, VmgsClientError};
use openhcl_reseal::hardware_reseal::{
    delay_after, key_fetched, HardwareReseal, Inspection, Instant, MigrationNotification, Publish,
    RequestsPoll, ResealError, ResealPoll, RestoreError, RunPhase, Schedule, StateReply,
    StateRequest, WorkerAction, WorkerInput, HW_KEY_PROTECTOR_FILE,
};
use openhcl_reseal::runtime_sealing::{Error, ErrorInner};

const SECOND: u64 = 1_000_000_000;

fn at(seconds: u64) -> Instant {
    Instant {
        nanos: seconds * SECOND,
    }
}

fn running(now: Instant) -> HardwareReseal {
    let mut worker = HardwareReseal::new(now, VmgsClient {});
    worker.start();
    worker
}

#[test]
fn a_new_worker_is_stopped_and_idle() {
    let mut worker = HardwareReseal::new(at(3), VmgsClient {});
    assert_eq!(worker.schedule, Schedule::new(at(3)));
    assert!(!worker.schedule.running && !worker.schedule.force_reseal);
    let mut notification = MigrationNotification::default();
    notification.notify();
    assert_eq!(
        worker.poll(&mut notification, RequestsPoll::Pending, at(4)),
        ResealPoll::Idle
    );
    // A notification before the start stays pending.
    assert!(notification.pending);
    worker.start();
    assert_eq!(
        worker.poll(&mut notification, RequestsPoll::Pending, at(5)),
        ResealPoll::Attempt
    );
    assert!(!notification.pending);
}

#[test]
fn duplicate_notifications_collapse() {
    let mut notification = MigrationNotification::default();
    assert!(!notification.take());
    notification.notify();
    notification.notify();
    assert!(notification.take());
    assert!(!notification.take());
}

#[test]
fn state_requests_win_over_notifications() {
    let mut worker = running(at(1));
    let mut notification = MigrationNotification::default();
    notification.notify();
    assert_eq!(
        worker.poll(&mut notification, RequestsPoll::Ready, at(2)),
        ResealPoll::State
    );
    assert!(notification.pending);
    assert!(!worker.schedule.force_reseal);
}

#[test]
fn a_take_tells_of_events_since_the_last() {
    // `n` for an event, `t` for a take that tells of one, `f` for one that
    // does not.
    for history in ["f", "nt", "nnntff", "fntfnnt", "ntntf"] {
        let mut notification = MigrationNotification::default();
        for step in history.chars() {
            match step {
                'n' => {
                    notification.notify();
                }
                't' => assert!(notification.take()),
                _ => assert!(!notification.take()),
            }
        }
    }
}

#[test]
fn a_notification_wakes_the_task_that_took() {
    let mut notification = MigrationNotification::default();
    // Nobody has registered yet.
    assert!(!notification.notify());
    notification.take();
    assert!(notification.notify());
    assert!(!notification.notify());
    notification.take();
    notification.take();
    assert!(notification.notify());

    let mut worker = running(at(1));
    let mut notification = MigrationNotification::default();
    assert_eq!(
        worker.poll(&mut notification, RequestsPoll::Pending, at(1)),
        ResealPoll::Idle
    );
    assert!(notification.notify());
}

#[test]
fn closed_requests_end_the_run_and_come_first() {
    let mut worker = running(at(1));
    worker.reset();
    let mut notification = MigrationNotification::default();
    notification.notify();
    assert_eq!(
        worker.poll(&mut notification, RequestsPoll::Closed, at(9)),
        ResealPoll::Return
    );
    assert!(notification.pending);
}

#[test]
fn success_rests_and_failure_backs_off() {
    let mut schedule = Schedule::new(at(10));
    schedule.notified(at(10));
    assert_eq!(schedule.due(), at(10));
    schedule.completed(at(11), true, 200);
    assert!(!schedule.force_reseal);
    assert_eq!(schedule.not_before, at(12));
    schedule.notified(at(11));
    // The minimum interval holds a new attempt back.
    assert_eq!(schedule.due(), at(12));

    schedule.completed(at(12), false, 0);
    assert!(schedule.force_reseal);
    assert_eq!(schedule.failures, 1);
    assert_eq!(schedule.due(), at(13));
    schedule.notified(at(12));
    assert_eq!(schedule.due(), at(13));
    schedule.completed(at(13), false, 250);
    assert_eq!(schedule.failures, 2);
    assert_eq!(schedule.due(), at(16));
    schedule.completed(at(16), true, 0);
    assert_eq!(schedule.failures, 0);
}

#[test]
fn the_wait_doubles_up_to_a_minute() {
    let waits: Vec<u64> = (1..=9).map(|failures| delay_after(failures, 0)).collect();
    let seconds: Vec<u64> = waits.iter().map(|wait| wait / SECOND).collect();
    assert_eq!(seconds, [1, 2, 4, 8, 16, 32, 60, 60, 60]);
    assert_eq!(delay_after(1, 255), SECOND + 255 * 4_000_000);
    assert_eq!(delay_after(6, 255), 32 * SECOND + 255 * 4_000_000);
    assert_eq!(delay_after(7, 255), 60 * SECOND);
    assert_eq!(delay_after(u32::MAX, 255), 60 * SECOND);
    for failures in 1..9 {
        assert!(delay_after(failures, 9) <= delay_after(failures + 1, 9));
    }
}

#[test]
fn the_failure_count_saturates() {
    let mut schedule = Schedule::new(at(0));
    schedule.failures = u32::MAX;
    schedule.completed(at(0), false, 0);
    assert_eq!(schedule.failures, u32::MAX);
    assert_eq!(schedule.due(), at(60));
}

#[test]
fn the_jitter_of_an_attempt_varies_within_its_bounds() {
    let mut waits = Vec::new();
    for _ in 0..64 {
        let mut worker = running(at(100));
        worker.attempt_ended(at(100), false);
        let wait = worker.schedule.due().nanos - at(100).nanos;
        assert!((SECOND..=SECOND + 255 * 4_000_000).contains(&wait));
        assert_eq!((wait - SECOND) % 4_000_000, 0);
        waits.push(wait);
    }
    // The random source was asked: not every jitter is the zero it starts as.
    assert!(waits.iter().any(|wait| *wait != waits[0]));
    let mut worker = running(at(100));
    worker.attempt_ended(at(100), true);
    assert_eq!(worker.schedule.not_before, at(101));
}

#[test]
fn a_notification_during_an_attempt_leads_to_another() {
    for success in [false, true] {
        let mut worker = running(at(1));
        let mut notification = MigrationNotification::default();
        notification.notify();
        assert_eq!(
            worker.poll(&mut notification, RequestsPoll::Pending, at(1)),
            ResealPoll::Attempt
        );
        notification.notify();
        worker.attempt_ended(at(2), success);
        assert!(matches!(
            worker.poll(&mut notification, RequestsPoll::Pending, at(2)),
            ResealPoll::WaitUntil(due) if due.nanos >= at(3).nanos
        ));
    }
}

#[test]
fn pending_work_survives_stop_and_start() {
    let mut worker = running(at(1));
    worker.attempt_ended(at(1), false);
    let before = worker.schedule;
    worker.stop();
    let mut notification = MigrationNotification::default();
    assert_eq!(
        worker.poll(&mut notification, RequestsPoll::Pending, at(9)),
        ResealPoll::Idle
    );
    worker.start();
    assert_eq!(worker.schedule, before);
}

#[test]
fn a_reset_makes_work_pending_and_nothing_is_saved() {
    let mut worker = running(at(1));
    worker.reset();
    assert!(worker.schedule.force_reseal);
    let schedule = worker.schedule;
    assert!(worker.save().is_none());
    assert_eq!(
        worker.restore(vec![1]),
        Err(RestoreError::SavedStateNotSupported)
    );
    assert_eq!(worker.schedule, schedule);
}

/// A worker that runs, with its notification.
struct Run {
    worker: HardwareReseal,
    notification: MigrationNotification,
}

impl Run {
    fn new() -> Self {
        Run {
            worker: HardwareReseal::new(at(0), VmgsClient {}),
            notification: MigrationNotification::default(),
        }
    }

    fn step(&mut self, input: WorkerInput) -> WorkerAction {
        assert!(self.worker.accepts(&input));
        self.worker.run(&mut self.notification, input)
    }

    fn poll(&mut self, requests: RequestsPoll, seconds: u64) -> ResealPoll {
        let now = at(seconds);
        match self.step(WorkerInput::Poll { requests, now }) {
            WorkerAction::Next(next) => next,
            other => panic!("{other:?}"),
        }
    }

    fn request(&mut self, request: StateRequest) -> StateReply {
        assert_eq!(self.poll(RequestsPoll::Ready, 0), ResealPoll::State);
        match self.step(WorkerInput::Request(request)) {
            WorkerAction::Reply(reply) => reply,
            other => panic!("{other:?}"),
        }
    }

    fn ended(&mut self, seconds: u64, success: bool) {
        let now = at(seconds);
        assert!(matches!(
            self.step(WorkerInput::AttemptEnded { now, success }),
            WorkerAction::Poll
        ));
    }
}

#[test]
fn a_run_attempts_only_when_started_and_due() {
    let mut run = Run::new();
    run.notification.notify();
    for seconds in [1, 100] {
        assert_eq!(run.poll(RequestsPoll::Pending, seconds), ResealPoll::Idle);
    }
    assert!(matches!(run.request(StateRequest::Start), StateReply::Done));
    assert!(run.notification.pending);
    assert_eq!(run.poll(RequestsPoll::Pending, 100), ResealPoll::Attempt);
    assert!(!run.notification.pending);
    run.notification.notify();
    run.ended(101, true);
    assert!(matches!(run.request(StateRequest::Stop), StateReply::Done));
    assert_eq!(run.poll(RequestsPoll::Pending, 200), ResealPoll::Idle);
    // The event of the attempt survives the stop.
    assert!(run.notification.pending);
    run.request(StateRequest::Start);
    assert_eq!(
        run.poll(RequestsPoll::Pending, 101),
        ResealPoll::WaitUntil(at(102))
    );
    assert_eq!(run.poll(RequestsPoll::Pending, 102), ResealPoll::Attempt);
    run.ended(103, true);
    // Nothing is pending any more.
    assert_eq!(run.poll(RequestsPoll::Pending, 999), ResealPoll::Idle);
    run.request(StateRequest::Reset);
    assert_eq!(run.poll(RequestsPoll::Pending, 999), ResealPoll::Attempt);
}

#[test]
fn a_run_retries_a_failed_attempt() {
    let mut run = Run::new();
    run.request(StateRequest::Start);
    run.request(StateRequest::Reset);
    assert_eq!(run.poll(RequestsPoll::Pending, 1), ResealPoll::Attempt);
    run.ended(2, false);
    assert!(matches!(
        run.poll(RequestsPoll::Pending, 2),
        ResealPoll::WaitUntil(due) if due.nanos >= at(3).nanos
    ));
    assert_eq!(run.poll(RequestsPoll::Pending, 5), ResealPoll::Attempt);
}

#[test]
fn a_run_takes_one_thing_at_a_time() {
    let mut run = Run::new();
    let poll = |requests| WorkerInput::Poll {
        requests,
        now: at(1),
    };
    let ended = |now| WorkerInput::AttemptEnded {
        now,
        success: false,
    };
    assert!(!run.worker.accepts(&WorkerInput::Request(StateRequest::Stop)));
    assert!(!run.worker.accepts(&ended(at(1))));
    run.request(StateRequest::Start);
    run.request(StateRequest::Reset);
    assert_eq!(run.poll(RequestsPoll::Pending, 1), ResealPoll::Attempt);
    assert_eq!(run.worker.phase, RunPhase::Attempting);
    assert!(!run.worker.accepts(&poll(RequestsPoll::Ready)));
    assert!(!run.worker.accepts(&WorkerInput::Request(StateRequest::Stop)));
    assert!(run.worker.accepts(&ended(at(1))));
    assert!(!run.worker.accepts(&ended(Instant { nanos: u64::MAX })));
    run.ended(1, true);
    assert_eq!(run.poll(RequestsPoll::Closed, 1), ResealPoll::Return);
    assert_eq!(run.worker.phase, RunPhase::Returned);
    assert!(!run.worker.accepts(&poll(RequestsPoll::Closed)));
}

#[test]
fn a_run_answers_every_kind_of_request() {
    let mut run = Run::new();
    assert!(matches!(
        run.request(StateRequest::Save),
        StateReply::Saved(None)
    ));
    assert!(matches!(
        run.request(StateRequest::Restore(vec![1])),
        StateReply::Restored(Err(RestoreError::SavedStateNotSupported))
    ));
    assert!(matches!(
        run.request(StateRequest::Inspect),
        StateReply::Inspected(Inspection {
            running: false,
            force_reseal: false,
            failures: 0,
        })
    ));
    let schedule = run.worker.schedule;
    assert_eq!(schedule, Schedule::new(at(0)));
    assert!(matches!(run.request(StateRequest::Reset), StateReply::Done));
    assert!(run.worker.schedule.force_reseal);
}

#[test]
fn notifications_never_shorten_the_wait() {
    for (success, wait) in [(true, 1), (false, 2)] {
        let mut schedule = Schedule::new(at(0));
        schedule.failures = 1;
        schedule.completed(at(10), success, 0);
        let completed = schedule;
        for seconds in [3, 10, 5] {
            schedule.notified(at(seconds));
            assert_eq!(schedule.due(), at(10 + wait));
        }
        schedule.notified(at(90));
        assert_eq!(schedule.due(), at(90));
        assert_eq!(schedule.failures, completed.failures);
        assert_eq!(schedule.not_before, completed.not_before);
    }
}

type Attempt = Result<Publish, ResealError<()>>;

fn up_to_write(
    fetched: Result<[u8; 32], VmgsClientError>,
    created: Result<Vec<u8>, Error<()>>,
    first_match: Result<bool, Error<()>>,
) -> Attempt {
    key_fetched(fetched)?.created(created)?.verified(first_match)
}

fn vmgs_error() -> VmgsClientError {
    VmgsClientError::Vmgs(VmgsBrokerError::FileInfoNotAllocated)
}

fn sealing_error() -> Error<()> {
    Error(ErrorInner::ReportSvnMismatch)
}

#[test]
fn an_attempt_publishes_what_it_verified() {
    let worker = running(at(1));
    assert!(matches!(
        worker.reseal(),
        VmgsBrokerRpc::ActiveEncryptionKey
    ));
    let publish = up_to_write(Ok([7; 32]), Ok(vec![1, 2, 3]), Ok(true)).unwrap();
    let VmgsBrokerRpc::WriteFileIfEncryptionKeyMatches(file, data, key) =
        publish.request(&worker.vmgs)
    else {
        panic!("the write is guarded");
    };
    assert_eq!(file, BrokerFileId(HW_KEY_PROTECTOR_FILE));
    assert_eq!(data, [1, 2, 3]);
    assert_eq!(key, [7; 32]);
    let stored = publish.published::<()>(Ok(true)).unwrap();
    assert_eq!(stored.protector, [1, 2, 3]);
    assert_eq!(stored.key, [7; 32]);
    assert!(stored.verified::<()>(Ok(true)).is_ok());
}

#[test]
fn every_step_of_an_attempt_can_fail() {
    let message = |error: ResealError<()>| error.message();
    assert_eq!(
        message(up_to_write(Err(vmgs_error()), Ok(vec![]), Ok(true)).err().unwrap()),
        "vmgs error"
    );
    assert_eq!(
        message(up_to_write(Ok([7; 32]), Err(sealing_error()), Ok(true)).err().unwrap()),
        "local report key derivation SVN does not match the TEE"
    );
    assert_eq!(
        message(up_to_write(Ok([7; 32]), Ok(vec![]), Ok(false)).err().unwrap()),
        "hardware changed while constructing the protector"
    );
    assert!(matches!(
        up_to_write(Ok([7; 32]), Ok(vec![]), Err(sealing_error())),
        Err(ResealError::Sealing(_))
    ));
    let publish = || up_to_write(Ok([7; 32]), Ok(vec![]), Ok(true)).unwrap();
    assert_eq!(
        message(publish().published(Ok(false)).err().unwrap()),
        "VMGS key changed while constructing the protector"
    );
    assert!(matches!(
        publish().published::<()>(Err(vmgs_error())),
        Err(ResealError::Vmgs(_))
    ));
    let stored = || publish().published::<()>(Ok(true)).unwrap();
    assert_eq!(
        message(stored().verified(Ok(false)).err().unwrap()),
        "hardware changed while persisting the protector"
    );
    assert!(matches!(
        stored().verified(Err(sealing_error())),
        Err(ResealError::Sealing(_))
    ));
}
