//! Event-triggered hardware resealing. A migration notification is only a
//! hint: the current hardware must authenticate the persisted protector. There
//! is no periodic verification to cover missed events or to close the crash
//! window before a durable reseal.

use crate::broker::{BrokerFileId, FileId, VmgsBrokerRpc};
use crate::bytes::copied;
use crate::client::{VmgsClient, VmgsClientError};
use crate::runtime_sealing::Error;
use crate::trusted::random_fill;
use vstd::arithmetic::power2::pow2;
use vstd::prelude::*;

verus! {

/// How long a worker rests after a success, in nanoseconds.
pub const MIN_RESEAL_INTERVAL: u64 = 1_000_000_000;

/// The longest wait between two attempts, in nanoseconds.
pub const MAX_RETRY_INTERVAL: u64 = 60_000_000_000;

/// The VMGS file that holds the hardware key protector.
pub const HW_KEY_PROTECTOR_FILE: u32 = 11;

/// A point in time, in nanoseconds since some fixed origin.
#[derive(Clone, Copy, Debug, PartialEq, Eq, Structural)]
pub struct Instant {
    pub nanos: u64,
}

/// A bounded, level-triggered notification. Events before startup or during an
/// in-flight attempt stay pending; duplicate events never queue up.
#[derive(Clone, Copy, Debug, PartialEq, Eq)]
pub struct MigrationNotification {
    pub pending: bool,
    /// Whether a task waits to be woken: it has taken the latch since the last
    /// wake.
    pub waiting: bool,
}

impl Default for MigrationNotification {
    fn default() -> (notification: Self)
        ensures
            notification == (MigrationNotification { pending: false, waiting: false }),
    {
        MigrationNotification { pending: false, waiting: false }
    }
}

impl MigrationNotification {
    /// The notification after an event.
    pub open spec fn spec_notify(self) -> Self {
        MigrationNotification { pending: true, waiting: false }
    }

    /// Whether an event wakes a task.
    pub open spec fn spec_wakes(self) -> bool {
        self.waiting
    }

    /// The notification after it was consumed.
    pub open spec fn spec_take(self) -> Self {
        MigrationNotification { pending: false, waiting: true }
    }

    /// Latches an event and tells whether to wake the task that registered
    /// last.
    pub fn notify(&mut self) -> (wake: bool)
        ensures
            wake == old(self).spec_wakes(),
            *final(self) == old(self).spec_notify(),
    {
        let wake = self.waiting;
        self.pending = true;
        self.waiting = false;
        wake
    }

    /// Consumes the latch and tells whether an event was pending, for a task
    /// that has registered to be woken by the next event.
    pub fn take(&mut self) -> (taken: bool)
        ensures
            taken == old(self).pending,
            *final(self) == old(self).spec_take(),
    {
        let taken = self.pending;
        self.pending = false;
        self.waiting = true;
        taken
    }
}

/// When to attempt a reseal. No field contains secret material.
#[derive(Clone, Copy, Debug, PartialEq, Eq)]
pub struct Schedule {
    pub running: bool,
    /// Pending recovery, including retries. Deadlines are ignored when false.
    pub force_reseal: bool,
    pub failures: u32,
    pub deadline: Instant,
    pub not_before: Instant,
}

/// The later of two instants.
pub open spec fn later(a: Instant, b: Instant) -> Instant {
    if a.nanos >= b.nanos {
        a
    } else {
        b
    }
}

/// How long to wait after the `failures`-th failure in a row: one second,
/// doubled for each further failure up to six times, spread by the jitter in
/// steps of four milliseconds, and never more than [`MAX_RETRY_INTERVAL`].
pub open spec fn retry_delay(failures: nat, jitter: u8) -> nat {
    let doublings = if failures >= 7 {
        6
    } else {
        (failures - 1) as nat
    };
    let spread = pow2(doublings) * 1_000_000_000 + jitter as nat * 4_000_000;
    if spread <= MAX_RETRY_INTERVAL {
        spread
    } else {
        MAX_RETRY_INTERVAL as nat
    }
}

/// One more failure, as far as the counter goes.
pub open spec fn one_more_failure(failures: u32) -> u32 {
    if failures == u32::MAX {
        failures
    } else {
        (failures + 1) as u32
    }
}

/// Computes [`retry_delay`].
pub fn delay_after(failures: u32, jitter: u8) -> (delay: u64)
    requires
        failures > 0,
    ensures
        delay == retry_delay(failures as nat, jitter),
        delay <= MAX_RETRY_INTERVAL,
{
    let doublings: u32 = if failures - 1 < 6 {
        failures - 1
    } else {
        6
    };
    proof {
        vstd::arithmetic::power2::lemma2_to64();
        assert(1u64 << 0u64 == 1 && 1u64 << 1u64 == 2 && 1u64 << 2u64 == 4 && 1u64 << 3u64 == 8
            && 1u64 << 4u64 == 16 && 1u64 << 5u64 == 32 && 1u64 << 6u64 == 64) by (bit_vector);
    }
    let seconds: u64 = 1u64 << (doublings as u64);
    assert(seconds == pow2(doublings as nat) && seconds <= 64);
    let spread: u64 = seconds * 1_000_000_000 + (jitter as u64) * 4_000_000;
    if spread <= MAX_RETRY_INTERVAL {
        spread
    } else {
        MAX_RETRY_INTERVAL
    }
}

impl Schedule {
    /// An idle schedule.
    pub fn new(now: Instant) -> (schedule: Self)
        ensures
            schedule == (Schedule {
                running: false,
                force_reseal: false,
                failures: 0,
                deadline: now,
                not_before: now,
            }),
    {
        Schedule { running: false, force_reseal: false, failures: 0, deadline: now, not_before: now }
    }

    /// The schedule after a notification.
    pub open spec fn spec_notified(self, now: Instant) -> Self {
        Schedule { force_reseal: true, deadline: now, ..self }
    }

    /// Wants an attempt from now on.
    pub fn notified(&mut self, now: Instant)
        ensures
            *final(self) == old(self).spec_notified(now),
    {
        self.force_reseal = true;
        self.deadline = now;
    }

    /// When the next attempt is due.
    pub open spec fn spec_due(self) -> Instant {
        later(self.deadline, self.not_before)
    }

    /// When the next attempt is due.
    pub fn due(&self) -> (due: Instant)
        ensures
            due == self.spec_due(),
    {
        if self.deadline.nanos >= self.not_before.nanos {
            self.deadline
        } else {
            self.not_before
        }
    }

    /// The schedule after an attempt that ended at `now`.
    pub open spec fn spec_completed(self, now: Instant, success: bool, jitter: u8) -> Self {
        if success {
            Schedule {
                failures: 0,
                force_reseal: false,
                not_before: Instant { nanos: (now.nanos + MIN_RESEAL_INTERVAL) as u64 },
                ..self
            }
        } else {
            let failures = one_more_failure(self.failures);
            let retry = Instant {
                nanos: (now.nanos + retry_delay(failures as nat, jitter)) as u64,
            };
            Schedule {
                failures,
                force_reseal: true,
                not_before: retry,
                deadline: retry,
                ..self
            }
        }
    }

    /// How long the worker waits at least after an attempt.
    pub open spec fn wait_after(self, success: bool, jitter: u8) -> nat {
        if success {
            MIN_RESEAL_INTERVAL as nat
        } else {
            retry_delay(one_more_failure(self.failures) as nat, jitter)
        }
    }

    /// Accounts for an attempt. After a success the worker idles until another
    /// notification. After a failure the write is retried, not just a cached
    /// verification: a failed flush may leave a valid protector in cache but
    /// not on durable storage.
    pub fn completed(&mut self, now: Instant, success: bool, jitter: u8)
        requires
            now.nanos + old(self).wait_after(success, jitter) <= u64::MAX,
        ensures
            *final(self) == old(self).spec_completed(now, success, jitter),
    {
        if success {
            self.failures = 0;
            self.force_reseal = false;
            self.not_before = Instant { nanos: now.nanos + MIN_RESEAL_INTERVAL };
        } else {
            self.failures = self.failures.saturating_add(1);
            self.force_reseal = true;
            let delay: u64 = delay_after(self.failures, jitter);
            self.not_before = Instant { nanos: now.nanos + delay };
            self.deadline = self.not_before;
        }
    }
}

/// What the channel of state requests holds.
#[derive(Clone, Copy, Debug, PartialEq, Eq, Structural)]
pub enum RequestsPoll {
    /// No request is there.
    Pending,
    /// A request is ready.
    Ready,
    /// Nobody can make a request any more.
    Closed,
}

/// What the worker does next.
#[derive(Clone, Copy, Debug, PartialEq, Eq, Structural)]
pub enum ResealPoll {
    /// Apply the state request that is ready.
    State,
    /// Return: the state requests are closed.
    Return,
    /// Nothing until a state request or a notification arrives.
    Idle,
    /// Nothing until then either, or until this instant has come.
    WaitUntil(Instant),
    /// Attempt a reseal.
    Attempt,
}

/// A transition of the VM that the worker takes part in.
#[derive(Debug)]
pub enum StateRequest {
    Start,
    Stop,
    Reset,
    Save,
    Restore(Vec<u8>),
    /// Show the state of the worker.
    Inspect,
}

/// What can be seen of a worker. Its deadlines are not shown.
#[derive(Clone, Copy, Debug, PartialEq, Eq, Structural)]
pub struct Inspection {
    pub running: bool,
    pub force_reseal: bool,
    pub failures: u32,
}

/// How a transition ended.
#[derive(Debug)]
pub enum StateReply {
    Done,
    Saved(Option<Vec<u8>>),
    Restored(Result<(), RestoreError>),
    Inspected(Inspection),
}

/// What a worker that runs is in the middle of.
#[derive(Clone, Copy, Debug, PartialEq, Eq, Structural)]
pub enum RunPhase {
    /// It waits for something to do.
    Waiting,
    /// It applies a state request.
    Applying,
    /// It awaits an attempt, including all hardware and broker work.
    Attempting,
    /// It has returned.
    Returned,
}

/// What a worker that runs learns.
#[derive(Debug)]
pub enum WorkerInput {
    /// What the state requests hold at this instant.
    Poll { requests: RequestsPoll, now: Instant },
    /// The request that was ready.
    Request(StateRequest),
    /// The attempt ended at this instant.
    AttemptEnded { now: Instant, success: bool },
}

/// What a worker that runs does.
#[derive(Debug)]
pub enum WorkerAction {
    /// This, and then learn of it.
    Next(ResealPoll),
    /// Answer the request so and poll again.
    Reply(StateReply),
    /// Poll again.
    Poll,
}

/// The worker refuses to be restored: no state of it is ever saved.
#[derive(Clone, Copy, Debug, PartialEq, Eq)]
pub enum RestoreError {
    SavedStateNotSupported,
}

/// The resealing worker, managed with the VM state units, so that a stop
/// drains hardware work and broker I/O before VMGS is snapshotted.
#[derive(Clone, Copy, Debug)]
pub struct HardwareReseal {
    pub schedule: Schedule,
    pub vmgs: VmgsClient,
    pub phase: RunPhase,
}

impl HardwareReseal {
    /// A stopped worker with nothing to do.
    pub fn new(now: Instant, vmgs: VmgsClient) -> (worker: Self)
        ensures
            worker.vmgs == vmgs,
            worker.phase == RunPhase::Waiting,
            worker.schedule == (Schedule {
                running: false,
                force_reseal: false,
                failures: 0,
                deadline: now,
                not_before: now,
            }),
    {
        HardwareReseal { schedule: Schedule::new(now), vmgs, phase: RunPhase::Waiting }
    }

    /// The schedule once a running worker has looked at its notification.
    pub open spec fn spec_polled_schedule(
        schedule: Schedule,
        notification: MigrationNotification,
        now: Instant,
    ) -> Schedule {
        if notification.pending {
            schedule.spec_notified(now)
        } else {
            schedule
        }
    }

    /// Whether a poll goes on to the notification and the schedule.
    pub open spec fn looks_for_work(self, requests: RequestsPoll) -> bool {
        requests == RequestsPoll::Pending && self.schedule.running
    }

    /// The worker after a poll.
    pub open spec fn spec_polled(
        self,
        notification: MigrationNotification,
        requests: RequestsPoll,
        now: Instant,
    ) -> Self {
        if self.looks_for_work(requests) {
            HardwareReseal {
                schedule: Self::spec_polled_schedule(self.schedule, notification, now),
                ..self
            }
        } else {
            self
        }
    }

    /// The notification after a poll.
    pub open spec fn spec_polled_latch(
        self,
        notification: MigrationNotification,
        requests: RequestsPoll,
    ) -> MigrationNotification {
        if self.looks_for_work(requests) {
            notification.spec_take()
        } else {
            notification
        }
    }

    /// What a poll decides.
    pub open spec fn spec_poll(
        self,
        notification: MigrationNotification,
        requests: RequestsPoll,
        now: Instant,
    ) -> ResealPoll {
        let schedule = self.spec_polled(notification, requests, now).schedule;
        match requests {
            RequestsPoll::Ready => ResealPoll::State,
            RequestsPoll::Closed => ResealPoll::Return,
            RequestsPoll::Pending => if !schedule.running || !schedule.force_reseal {
                ResealPoll::Idle
            } else if now.nanos >= schedule.spec_due().nanos {
                ResealPoll::Attempt
            } else {
                ResealPoll::WaitUntil(schedule.spec_due())
            },
        }
    }

    /// Decides what comes next. State transitions win over a timer or an event
    /// storm, and a stopped worker leaves notifications pending.
    pub fn poll(
        &mut self,
        notification: &mut MigrationNotification,
        requests: RequestsPoll,
        now: Instant,
    ) -> (next: ResealPoll)
        ensures
            *final(self) == old(self).spec_polled(*old(notification), requests, now),
            *final(notification) == old(self).spec_polled_latch(*old(notification), requests),
            next == old(self).spec_poll(*old(notification), requests, now),
    {
        match requests {
            RequestsPoll::Ready => return ResealPoll::State,
            RequestsPoll::Closed => return ResealPoll::Return,
            RequestsPoll::Pending => {},
        }
        if !self.schedule.running {
            return ResealPoll::Idle;
        }
        if notification.take() {
            self.schedule.notified(now);
        }
        if !self.schedule.force_reseal {
            return ResealPoll::Idle;
        }
        let due = self.schedule.due();
        if now.nanos >= due.nanos {
            ResealPoll::Attempt
        } else {
            ResealPoll::WaitUntil(due)
        }
    }

    /// The worker after an attempt that ended at `now`.
    pub open spec fn spec_attempt_ended(self, now: Instant, success: bool, jitter: u8) -> Self {
        HardwareReseal { schedule: self.schedule.spec_completed(now, success, jitter), ..self }
    }

    /// Accounts for an attempt that ended at `now`, with a random jitter. The
    /// jitter is for scheduling only, and a failing random source must not
    /// prevent retrying a potentially stale protector.
    pub fn attempt_ended(&mut self, now: Instant, success: bool)
        requires
            now.nanos + old(self).schedule.wait_after(success, u8::MAX) <= u64::MAX,
        ensures
            exists|jitter: u8|
                *final(self) == #[trigger] old(self).spec_attempt_ended(now, success, jitter),
    {
        let mut jitter: [u8; 1] = [0u8];
        let _ = random_fill(&mut jitter);
        assert(self.schedule.wait_after(success, jitter[0]) <= self.schedule.wait_after(
            success,
            u8::MAX,
        ));
        self.schedule.completed(now, success, jitter[0]);
        assert(*self == old(self).spec_attempt_ended(now, success, jitter[0]));
    }

    /// The worker after a start.
    pub open spec fn spec_start(self) -> Self {
        HardwareReseal { schedule: Schedule { running: true, ..self.schedule }, ..self }
    }

    /// The worker after a stop.
    pub open spec fn spec_stop(self) -> Self {
        HardwareReseal { schedule: Schedule { running: false, ..self.schedule }, ..self }
    }

    /// Starting or resuming does not create work or reset retry backoff:
    /// pending notifications and recovery survive a normal stop and start.
    pub fn start(&mut self)
        ensures
            *final(self) == old(self).spec_start(),
    {
        self.schedule.running = true;
    }

    /// Stops the worker.
    pub fn stop(&mut self)
        ensures
            *final(self) == old(self).spec_stop(),
    {
        self.schedule.running = false;
    }

    /// The worker after a reset.
    pub open spec fn spec_reset(self) -> Self {
        HardwareReseal { schedule: Schedule { force_reseal: true, ..self.schedule }, ..self }
    }

    /// Makes a reseal pending.
    pub fn reset(&mut self)
        ensures
            *final(self) == old(self).spec_reset(),
    {
        self.schedule.force_reseal = true;
    }

    /// VMGS owns the DEK, and no scheduling state is saved either.
    pub fn save(&mut self) -> (saved: Option<Vec<u8>>)
        ensures
            saved is None,
            *final(self) == *old(self),
    {
        None
    }

    /// There is never a saved state to restore.
    pub fn restore(&mut self, _state: Vec<u8>) -> (restored: Result<(), RestoreError>)
        ensures
            restored == Err::<(), RestoreError>(RestoreError::SavedStateNotSupported),
            *final(self) == *old(self),
    {
        Err(RestoreError::SavedStateNotSupported)
    }

    /// What is shown of the worker.
    pub open spec fn spec_inspect(self) -> Inspection {
        Inspection {
            running: self.schedule.running,
            force_reseal: self.schedule.force_reseal,
            failures: self.schedule.failures,
        }
    }

    /// Shows the worker.
    pub fn inspect(&self) -> (inspection: Inspection)
        ensures
            inspection == self.spec_inspect(),
    {
        Inspection {
            running: self.schedule.running,
            force_reseal: self.schedule.force_reseal,
            failures: self.schedule.failures,
        }
    }

    /// The worker after a state request.
    pub open spec fn spec_apply(self, request: StateRequest) -> Self {
        match request {
            StateRequest::Start => self.spec_start(),
            StateRequest::Stop => self.spec_stop(),
            StateRequest::Reset => self.spec_reset(),
            StateRequest::Save | StateRequest::Restore(_) | StateRequest::Inspect => self,
        }
    }

    /// The answer to a state request.
    pub open spec fn spec_reply(self, request: StateRequest) -> StateReply {
        match request {
            StateRequest::Start | StateRequest::Stop | StateRequest::Reset => StateReply::Done,
            StateRequest::Save => StateReply::Saved(None),
            StateRequest::Restore(_) => StateReply::Restored(
                Err(RestoreError::SavedStateNotSupported),
            ),
            StateRequest::Inspect => StateReply::Inspected(self.spec_inspect()),
        }
    }

    /// Applies a state request.
    pub fn apply(&mut self, request: StateRequest) -> (reply: StateReply)
        ensures
            *final(self) == old(self).spec_apply(request),
            reply == old(self).spec_reply(request),
    {
        match request {
            StateRequest::Start => {
                self.start();
                StateReply::Done
            },
            StateRequest::Stop => {
                self.stop();
                StateReply::Done
            },
            StateRequest::Reset => {
                self.reset();
                StateReply::Done
            },
            StateRequest::Save => StateReply::Saved(self.save()),
            StateRequest::Restore(state) => StateReply::Restored(self.restore(state)),
            StateRequest::Inspect => StateReply::Inspected(self.inspect()),
        }
    }

    /// Whether a worker that runs can learn this in its phase. An attempt has
    /// to end early enough for the clock to count the wait after it.
    pub open spec fn spec_accepts(self, input: WorkerInput) -> bool {
        match input {
            WorkerInput::Poll { .. } => self.phase == RunPhase::Waiting,
            WorkerInput::Request(_) => self.phase == RunPhase::Applying,
            WorkerInput::AttemptEnded { now, success } => {
                &&& self.phase == RunPhase::Attempting
                &&& now.nanos + self.schedule.wait_after(success, u8::MAX) <= u64::MAX
            },
        }
    }

    /// The phase that a decision leads to.
    pub open spec fn phase_after(next: ResealPoll) -> RunPhase {
        match next {
            ResealPoll::State => RunPhase::Applying,
            ResealPoll::Return => RunPhase::Returned,
            ResealPoll::Attempt => RunPhase::Attempting,
            ResealPoll::Idle | ResealPoll::WaitUntil(_) => RunPhase::Waiting,
        }
    }

    /// The worker after an input, where `jitter` is what an attempt that ended
    /// draws.
    pub open spec fn spec_run(
        self,
        notification: MigrationNotification,
        input: WorkerInput,
        jitter: u8,
    ) -> Self {
        match input {
            WorkerInput::Poll { requests, now } => HardwareReseal {
                phase: Self::phase_after(self.spec_poll(notification, requests, now)),
                ..self.spec_polled(notification, requests, now)
            },
            WorkerInput::Request(request) => HardwareReseal {
                phase: RunPhase::Waiting,
                ..self.spec_apply(request)
            },
            WorkerInput::AttemptEnded { now, success } => HardwareReseal {
                phase: RunPhase::Waiting,
                ..self.spec_attempt_ended(now, success, jitter)
            },
        }
    }

    /// The notification after an input.
    pub open spec fn spec_run_latch(
        self,
        notification: MigrationNotification,
        input: WorkerInput,
    ) -> MigrationNotification {
        match input {
            WorkerInput::Poll { requests, .. } => self.spec_polled_latch(notification, requests),
            _ => notification,
        }
    }

    /// What an input makes the worker do.
    pub open spec fn spec_action(
        self,
        notification: MigrationNotification,
        input: WorkerInput,
    ) -> WorkerAction {
        match input {
            WorkerInput::Poll { requests, now } => WorkerAction::Next(
                self.spec_poll(notification, requests, now),
            ),
            WorkerInput::Request(request) => WorkerAction::Reply(self.spec_reply(request)),
            WorkerInput::AttemptEnded { .. } => WorkerAction::Poll,
        }
    }

    /// Whether a worker that runs can learn this in its phase.
    pub fn accepts(&self, input: &WorkerInput) -> (accepted: bool)
        ensures
            accepted == self.spec_accepts(*input),
    {
        match input {
            WorkerInput::Poll { .. } => self.phase == RunPhase::Waiting,
            WorkerInput::Request(_) => self.phase == RunPhase::Applying,
            WorkerInput::AttemptEnded { now, success } => {
                let wait: u64 = if *success {
                    MIN_RESEAL_INTERVAL
                } else {
                    delay_after(self.schedule.failures.saturating_add(1), u8::MAX)
                };
                self.phase == RunPhase::Attempting && now.nanos <= u64::MAX - wait
            },
        }
    }

    /// Goes on from one input to the next.
    pub fn run(&mut self, notification: &mut MigrationNotification, input: WorkerInput) -> (action:
        WorkerAction)
        requires
            old(self).spec_accepts(input),
        ensures
            exists|jitter: u8|
                *final(self) == #[trigger] old(self).spec_run(*old(notification), input, jitter),
            *final(notification) == old(self).spec_run_latch(*old(notification), input),
            action == old(self).spec_action(*old(notification), input),
    {
        match input {
            WorkerInput::Poll { requests, now } => {
                let next = self.poll(notification, requests, now);
                self.phase = match next {
                    ResealPoll::State => RunPhase::Applying,
                    ResealPoll::Return => RunPhase::Returned,
                    ResealPoll::Attempt => RunPhase::Attempting,
                    ResealPoll::Idle | ResealPoll::WaitUntil(_) => RunPhase::Waiting,
                };
                assert(*self == old(self).spec_run(*old(notification), input, 0));
                WorkerAction::Next(next)
            },
            WorkerInput::Request(request) => {
                let reply = self.apply(request);
                self.phase = RunPhase::Waiting;
                assert(*self == old(self).spec_run(*old(notification), input, 0));
                WorkerAction::Reply(reply)
            },
            WorkerInput::AttemptEnded { now, success } => {
                self.attempt_ended(now, success);
                let ghost jitter = choose|jitter: u8|
                    *self == #[trigger] old(self).spec_attempt_ended(now, success, jitter);
                self.phase = RunPhase::Waiting;
                assert(*self == old(self).spec_run(*old(notification), input, jitter));
                WorkerAction::Poll
            },
        }
    }

    /// Starts an attempt: reseal the active DEK, durably publish its
    /// protector, and verify it against fresh hardware derivations before and
    /// after persistence. The request asks for the active DEK.
    pub fn reseal(&self) -> (request: VmgsBrokerRpc)
        ensures
            request == VmgsBrokerRpc::ActiveEncryptionKey,
    {
        self.vmgs.active_encryption_key()
    }
}

/// Why an attempt failed.
#[derive(Debug)]
pub enum ResealError<S> {
    /// The broker did not deliver.
    Vmgs(VmgsClientError),
    /// The hardware or the cipher did not deliver.
    Sealing(Error<S>),
    /// The new protector did not verify.
    HardwareChangedWhileConstructing,
    /// The DEK is no longer the active one.
    KeyChanged,
    /// The protector that was stored does not verify.
    HardwareChangedWhilePersisting,
}

impl<S> ResealError<S> {
    /// The words of the message.
    pub open spec fn spec_message(self) -> Seq<char> {
        match self {
            ResealError::Vmgs(error) => error.spec_message(),
            ResealError::Sealing(error) => error.spec_message(),
            ResealError::HardwareChangedWhileConstructing =>
                "hardware changed while constructing the protector"@,
            ResealError::KeyChanged => "VMGS key changed while constructing the protector"@,
            ResealError::HardwareChangedWhilePersisting =>
                "hardware changed while persisting the protector"@,
        }
    }

    /// What to tell a person.
    pub fn message(&self) -> (message: &'static str)
        ensures
            message@ == self.spec_message(),
    {
        match self {
            ResealError::Vmgs(error) => error.message(),
            ResealError::Sealing(error) => error.message(),
            ResealError::HardwareChangedWhileConstructing =>
                "hardware changed while constructing the protector",
            ResealError::KeyChanged => "VMGS key changed while constructing the protector",
            ResealError::HardwareChangedWhilePersisting =>
                "hardware changed while persisting the protector",
        }
    }
}

/// An attempt that needs a protector for `key`. The states of an attempt hold
/// the DEK, so none of them has `Debug`.
pub struct CreateProtector {
    pub key: [u8; 32],
}

/// An attempt whose new protector is to be verified with a second derivation,
/// not with the keys it was sealed with.
pub struct VerifyCreated {
    pub protector: Vec<u8>,
    pub key: [u8; 32],
}

/// An attempt whose protector is to be stored.
pub struct Publish {
    pub protector: Vec<u8>,
    pub key: [u8; 32],
}

/// An attempt whose stored protector is to be verified once more: migration
/// can happen during the write, too.
pub struct VerifyStored {
    pub protector: Vec<u8>,
    pub key: [u8; 32],
}

/// What follows the request for the active DEK.
pub open spec fn spec_key_fetched<S>(fetched: Result<[u8; 32], VmgsClientError>) -> Result<
    CreateProtector,
    ResealError<S>,
> {
    match fetched {
        Ok(key) => Ok(CreateProtector { key }),
        Err(error) => Err(ResealError::Vmgs(error)),
    }
}

/// Goes on when the broker has answered the request for the active DEK.
pub fn key_fetched<S>(fetched: Result<[u8; 32], VmgsClientError>) -> (next: Result<
    CreateProtector,
    ResealError<S>,
>)
    ensures
        next == spec_key_fetched::<S>(fetched),
{
    match fetched {
        Ok(key) => Ok(CreateProtector { key }),
        Err(error) => Err(ResealError::Vmgs(error)),
    }
}

impl CreateProtector {
    /// What follows the creation.
    pub open spec fn spec_created<S>(self, created: Result<Vec<u8>, Error<S>>) -> Result<
        VerifyCreated,
        ResealError<S>,
    > {
        match created {
            Ok(protector) => Ok(VerifyCreated { protector, key: self.key }),
            Err(error) => Err(ResealError::Sealing(error)),
        }
    }

    /// Goes on when a protector for the key was created, or was not.
    pub fn created<S>(self, created: Result<Vec<u8>, Error<S>>) -> (next: Result<
        VerifyCreated,
        ResealError<S>,
    >)
        ensures
            next == self.spec_created(created),
    {
        match created {
            Ok(protector) => Ok(VerifyCreated { protector, key: self.key }),
            Err(error) => Err(ResealError::Sealing(error)),
        }
    }
}

impl VerifyCreated {
    /// What follows the first verification.
    pub open spec fn spec_verified<S>(self, matches: Result<bool, Error<S>>) -> Result<
        Publish,
        ResealError<S>,
    > {
        match matches {
            Ok(true) => Ok(Publish { protector: self.protector, key: self.key }),
            Ok(false) => Err(ResealError::HardwareChangedWhileConstructing),
            Err(error) => Err(ResealError::Sealing(error)),
        }
    }

    /// Goes on when the protector was checked against the key.
    pub fn verified<S>(self, matches: Result<bool, Error<S>>) -> (next: Result<
        Publish,
        ResealError<S>,
    >)
        ensures
            next == self.spec_verified(matches),
    {
        match matches {
            Ok(true) => Ok(Publish { protector: self.protector, key: self.key }),
            Ok(false) => Err(ResealError::HardwareChangedWhileConstructing),
            Err(error) => Err(ResealError::Sealing(error)),
        }
    }
}

impl Publish {
    /// The write to request. The file is not encrypted by VMGS, so that it can
    /// be read before VMGS is unlocked. The comparison with the active key
    /// keeps a concurrent key rotation from publishing a protector for a stale
    /// key.
    pub fn request(&self, vmgs: &VmgsClient) -> (request: VmgsBrokerRpc)
        ensures
            request matches VmgsBrokerRpc::WriteFileIfEncryptionKeyMatches(file_id, buf, key)
                && file_id == BrokerFileId(HW_KEY_PROTECTOR_FILE) && file_id.0 == 11 && buf@
                == self.protector@ && key == self.key,
    {
        vmgs.write_file_if_encryption_key_matches(
            FileId(HW_KEY_PROTECTOR_FILE),
            copied(self.protector.as_slice()),
            self.key,
        )
    }

    /// What follows the write.
    pub open spec fn spec_published<S>(self, written: Result<bool, VmgsClientError>) -> Result<
        VerifyStored,
        ResealError<S>,
    > {
        match written {
            Ok(true) => Ok(VerifyStored { protector: self.protector, key: self.key }),
            Ok(false) => Err(ResealError::KeyChanged),
            Err(error) => Err(ResealError::Vmgs(error)),
        }
    }

    /// Goes on when the broker has answered the write.
    pub fn published<S>(self, written: Result<bool, VmgsClientError>) -> (next: Result<
        VerifyStored,
        ResealError<S>,
    >)
        ensures
            next == self.spec_published::<S>(written),
    {
        match written {
            Ok(true) => Ok(VerifyStored { protector: self.protector, key: self.key }),
            Ok(false) => Err(ResealError::KeyChanged),
            Err(error) => Err(ResealError::Vmgs(error)),
        }
    }
}

impl VerifyStored {
    /// How the attempt ends.
    pub open spec fn spec_verified<S>(self, matches: Result<bool, Error<S>>) -> Result<
        (),
        ResealError<S>,
    > {
        match matches {
            Ok(true) => Ok(()),
            Ok(false) => Err(ResealError::HardwareChangedWhilePersisting),
            Err(error) => Err(ResealError::Sealing(error)),
        }
    }

    /// How the attempt ends, when the stored protector was checked again.
    pub fn verified<S>(self, matches: Result<bool, Error<S>>) -> (ended: Result<
        (),
        ResealError<S>,
    >)
        ensures
            ended == self.spec_verified(matches),
    {
        match matches {
            Ok(true) => Ok(()),
            Ok(false) => Err(ResealError::HardwareChangedWhilePersisting),
            Err(error) => Err(ResealError::Sealing(error)),
        }
    }
}

/// The state of an attempt that asks for the write, or `None` if it fails
/// before that.
pub open spec fn attempted_write<S>(
    fetched: Result<[u8; 32], VmgsClientError>,
    created: Result<Vec<u8>, Error<S>>,
    first_match: Result<bool, Error<S>>,
) -> Option<Publish> {
    match spec_key_fetched::<S>(fetched) {
        Err(_) => None,
        Ok(create) => match create.spec_created(created) {
            Err(_) => None,
            Ok(verify) => match verify.spec_verified(first_match) {
                Err(_) => None,
                Ok(publish) => Some(publish),
            },
        },
    }
}

/// Whether an attempt succeeds, given the answers it gets if it asks.
pub open spec fn attempt_succeeds<S>(
    fetched: Result<[u8; 32], VmgsClientError>,
    created: Result<Vec<u8>, Error<S>>,
    first_match: Result<bool, Error<S>>,
    written: Result<bool, VmgsClientError>,
    second_match: Result<bool, Error<S>>,
) -> bool {
    match attempted_write(fetched, created, first_match) {
        None => false,
        Some(publish) => match publish.spec_published::<S>(written) {
            Err(_) => false,
            Ok(verify) => verify.spec_verified(second_match) is Ok,
        },
    }
}

/// Nothing is written unless the protector was created for the fetched key
/// and verified, and what is written is that protector under that key.
pub proof fn law_only_verified_protectors_are_written<S>(
    fetched: Result<[u8; 32], VmgsClientError>,
    created: Result<Vec<u8>, Error<S>>,
    first_match: Result<bool, Error<S>>,
)
    ensures
        attempted_write(fetched, created, first_match) is Some <==> fetched is Ok && created is Ok
            && first_match == Ok::<bool, Error<S>>(true),
        attempted_write(fetched, created, first_match) matches Some(publish) ==> publish.key
            == fetched->Ok_0 && publish.protector == created->Ok_0,
{
}

/// An attempt succeeds exactly when the protector verified before and after it
/// was stored under the key that was active throughout.
pub proof fn law_attempt_succeeds_only_when_durable_and_verified_twice<S>(
    fetched: Result<[u8; 32], VmgsClientError>,
    created: Result<Vec<u8>, Error<S>>,
    first_match: Result<bool, Error<S>>,
    written: Result<bool, VmgsClientError>,
    second_match: Result<bool, Error<S>>,
)
    ensures
        attempt_succeeds(fetched, created, first_match, written, second_match) <==> fetched is Ok
            && created is Ok && first_match == Ok::<bool, Error<S>>(true) && written == Ok::<
            bool,
            VmgsClientError,
        >(true) && second_match == Ok::<bool, Error<S>>(true),
{
}

/// What happens to a notification.
pub enum LatchEvent {
    Notify,
    Take,
}

/// A notification that was created clear, after `events`.
pub open spec fn latch_after(events: Seq<LatchEvent>) -> MigrationNotification
    decreases events.len(),
{
    if events.len() == 0 {
        MigrationNotification { pending: false, waiting: false }
    } else {
        match events.last() {
            LatchEvent::Notify => latch_after(events.drop_last()).spec_notify(),
            LatchEvent::Take => latch_after(events.drop_last()).spec_take(),
        }
    }
}

/// Whether the event at `i` was followed by no take.
pub open spec fn notified_since_take(events: Seq<LatchEvent>, i: int) -> bool {
    &&& 0 <= i < events.len()
    &&& events[i] is Notify
    &&& forall|j: int| i < j < events.len() ==> !(#[trigger] events[j] is Take)
}

/// However many events and takes there were, a take now tells whether an event
/// came since the previous take, or since creation. So no event is lost and
/// none counts twice, and a second take tells of nothing.
pub proof fn law_take_tells_of_events_since_the_last(events: Seq<LatchEvent>)
    ensures
        latch_after(events).pending <==> exists|i: int| notified_since_take(events, i),
        !latch_after(events.push(LatchEvent::Take)).pending,
    decreases events.len(),
{
    assert(events.push(LatchEvent::Take).drop_last() =~= events);
    if events.len() > 0 {
        let front = events.drop_last();
        let last = events.len() - 1;
        law_take_tells_of_events_since_the_last(front);
        match events.last() {
            LatchEvent::Notify => {
                assert(notified_since_take(events, last));
            },
            LatchEvent::Take => {
                assert forall|i: int| !notified_since_take(events, i) by {
                    assert(events[last] is Take);
                }
            },
        }
    }
}

/// Whether the event at `i` is a take that was followed by no notification.
pub open spec fn taken_since_notify(events: Seq<LatchEvent>, i: int) -> bool {
    &&& 0 <= i < events.len()
    &&& events[i] is Take
    &&& forall|j: int| i < j < events.len() ==> !(#[trigger] events[j] is Notify)
}

/// However many events and takes there were, a notification now wakes a task
/// exactly when one has taken the latch since the previous notification.
pub proof fn law_notification_wakes_the_task_that_took(events: Seq<LatchEvent>)
    ensures
        latch_after(events).spec_wakes() <==> exists|i: int| taken_since_notify(events, i),
        latch_after(events.push(LatchEvent::Take)).spec_wakes(),
    decreases events.len(),
{
    assert(events.push(LatchEvent::Take).drop_last() =~= events);
    if events.len() > 0 {
        let last = events.len() - 1;
        law_notification_wakes_the_task_that_took(events.drop_last());
        match events.last() {
            LatchEvent::Take => {
                assert(taken_since_notify(events, last));
            },
            LatchEvent::Notify => {
                assert forall|i: int| !taken_since_notify(events, i) by {
                    assert(events[last] is Notify);
                }
            },
        }
    }
}

/// Notifications do not add up: two are as good as one.
pub proof fn law_duplicate_notifications_collapse(notification: MigrationNotification)
    ensures
        notification.spec_notify().spec_notify() == notification.spec_notify(),
        notification.spec_notify().pending,
        !notification.spec_notify().spec_notify().spec_take().pending,
{
}

/// The wait after a failure lies between one second and a minute.
pub proof fn law_retry_delay_is_bounded(failures: nat, jitter: u8)
    requires
        failures > 0,
    ensures
        1_000_000_000 <= retry_delay(failures, jitter) <= MAX_RETRY_INTERVAL,
{
    vstd::arithmetic::power2::lemma2_to64();
    vstd::arithmetic::power2::lemma_pow2_pos((failures - 1) as nat);
}

/// The wait never shrinks from one failure to the next, for equal jitter, and
/// a minute is reached at the seventh failure.
pub proof fn law_retry_delay_grows(failures: nat, jitter: u8)
    requires
        failures > 0,
    ensures
        retry_delay(failures, jitter) <= retry_delay(failures + 1, jitter),
        failures >= 7 ==> retry_delay(failures, jitter) == MAX_RETRY_INTERVAL,
{
    vstd::arithmetic::power2::lemma2_to64();
    if failures < 7 {
        vstd::arithmetic::power2::lemma_pow2_strictly_increases((failures - 1) as nat, failures);
    }
}

/// After a success the worker has nothing to do, and whatever notification
/// comes later is not acted on before the minimum interval is over.
pub proof fn law_success_rests(schedule: Schedule, now: Instant, jitter: u8, notified_at: Instant)
    requires
        now.nanos + schedule.wait_after(true, jitter) <= u64::MAX,
    ensures
        !schedule.spec_completed(now, true, jitter).force_reseal,
        schedule.spec_completed(now, true, jitter).failures == 0,
        schedule.spec_completed(now, true, jitter).spec_notified(notified_at).force_reseal,
        schedule.spec_completed(now, true, jitter).spec_notified(notified_at).spec_due().nanos
            >= now.nanos + MIN_RESEAL_INTERVAL,
{
}

/// After a failure the attempt stays pending and is due after the wait; a
/// notification in the meantime does not bring it forward.
pub proof fn law_failure_backs_off(
    schedule: Schedule,
    now: Instant,
    jitter: u8,
    notified_at: Instant,
)
    requires
        now.nanos + schedule.wait_after(false, jitter) <= u64::MAX,
    ensures
        schedule.spec_completed(now, false, jitter).force_reseal,
        schedule.spec_completed(now, false, jitter).spec_due().nanos == now.nanos + retry_delay(
            one_more_failure(schedule.failures) as nat,
            jitter,
        ),
        schedule.spec_completed(now, false, jitter).spec_notified(notified_at).spec_due().nanos
            >= schedule.spec_completed(now, false, jitter).spec_due().nanos,
{
    law_retry_delay_is_bounded(one_more_failure(schedule.failures) as nat, jitter);
}

/// The schedule after notifications at `times`.
pub open spec fn notified_at_all(schedule: Schedule, times: Seq<Instant>) -> Schedule
    decreases times.len(),
{
    if times.len() == 0 {
        schedule
    } else {
        notified_at_all(schedule, times.drop_last()).spec_notified(times.last())
    }
}

/// However an attempt ended and however many notifications come after it, they
/// ask for work but shorten neither the minimum interval nor the backoff: the
/// next attempt is due when the last of them came or when the wait is over,
/// whichever is later.
pub proof fn law_notifications_never_shorten_the_wait(
    schedule: Schedule,
    now: Instant,
    success: bool,
    jitter: u8,
    times: Seq<Instant>,
)
    requires
        now.nanos + schedule.wait_after(success, jitter) <= u64::MAX,
        times.len() > 0,
    ensures
        ({
            let completed = schedule.spec_completed(now, success, jitter);
            let notified = notified_at_all(completed, times);
            &&& notified.force_reseal
            &&& notified.failures == completed.failures
            &&& notified.not_before == completed.not_before
            &&& notified.spec_due() == later(times.last(), completed.not_before)
            &&& notified.spec_due().nanos >= now.nanos + schedule.wait_after(success, jitter)
            &&& notified.spec_due().nanos >= now.nanos + MIN_RESEAL_INTERVAL
        }),
    decreases times.len(),
{
    reveal_with_fuel(notified_at_all, 2);
    law_retry_delay_is_bounded(one_more_failure(schedule.failures) as nat, jitter);
    if times.len() > 1 {
        law_notifications_never_shorten_the_wait(
            schedule,
            now,
            success,
            jitter,
            times.drop_last(),
        );
    }
}

/// A normal stop and start changes nothing but whether the worker runs: work
/// that was pending stays pending, at the same time and after as many failures.
pub proof fn law_pending_work_survives_stop_and_start(worker: HardwareReseal)
    ensures
        worker.spec_stop().spec_start() == worker.spec_start(),
        worker.schedule.running ==> worker.spec_stop().spec_start() == worker,
        worker.spec_stop().schedule.force_reseal == worker.schedule.force_reseal,
        worker.spec_stop().schedule.failures == worker.schedule.failures,
        worker.spec_stop().schedule.spec_due() == worker.schedule.spec_due(),
{
}

/// A notification that arrives during an attempt leads to another attempt,
/// however the first one ends.
pub proof fn law_notification_during_attempt_survives(
    schedule: Schedule,
    notification: MigrationNotification,
    ended_at: Instant,
    success: bool,
    jitter: u8,
    polled_at: Instant,
)
    ensures
        HardwareReseal::spec_polled_schedule(
            schedule.spec_completed(ended_at, success, jitter),
            notification.spec_notify(),
            polled_at,
        ).force_reseal,
{
}

} // verus!
