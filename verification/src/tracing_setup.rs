//! Decisions of the tracing pipeline: its environment, the notifications that
//! events become, and the task that writes them to the host.

use crate::mesh_layer::{Level, TraceRequest, Type};
use crate::text::{strip_prefix, without_prefix};
use vstd::prelude::*;

verus! {

/// The severity of a notification.
#[derive(Clone, Copy, Debug, PartialEq, Eq, Structural)]
pub enum LogLevel {
    Verbose,
    Information,
    Warning,
    Error,
}

/// What a notification reports.
#[derive(Clone, Copy, Debug, PartialEq, Eq, Structural)]
pub enum LogType {
    Event,
    SpanEnter,
    SpanExit,
}

/// The severity that the host is told.
pub open spec fn log_level_of(level: Level) -> LogLevel {
    match level {
        Level::Trace | Level::Debug => LogLevel::Verbose,
        Level::Info => LogLevel::Information,
        Level::Warn => LogLevel::Warning,
        Level::Error => LogLevel::Error,
    }
}

/// Computes [`log_level_of`].
pub fn tracing_log_level(level: Level) -> (log_level: LogLevel)
    ensures
        log_level == log_level_of(level),
{
    match level {
        Level::Trace | Level::Debug => LogLevel::Verbose,
        Level::Info => LogLevel::Information,
        Level::Warn => LogLevel::Warning,
        Level::Error => LogLevel::Error,
    }
}

/// What comes of looking a variable up.
#[derive(Debug)]
pub enum EnvLookup {
    /// This is its value.
    Found(String),
    /// The variable of this name holds its value, if anything does.
    TryLegacy(String),
}

/// The name that a variable used to have.
pub open spec fn legacy_name(name: Seq<char>) -> Seq<char> {
    "HVLITE_"@ + without_prefix(name, "OPENVMM_"@)
}

/// Looks a variable up, falling back to a legacy variable (with `HVLITE_` in
/// place of `OPENVMM_`) if it is not set. `value` is what it holds.
pub fn legacy_openvmm_env(name: &str, value: Option<String>) -> (lookup: EnvLookup)
    ensures
        match value {
            Some(value) => lookup == EnvLookup::Found(value),
            None => lookup matches EnvLookup::TryLegacy(legacy) && legacy@ == legacy_name(name@),
        },
{
    match value {
        Some(value) => EnvLookup::Found(value),
        None => {
            let mut legacy = "HVLITE_".to_owned();
            legacy.append(strip_prefix(name, "OPENVMM_"));
            EnvLookup::TryLegacy(legacy)
        },
    }
}

/// What the tracing backend starts with.
#[derive(Debug)]
pub struct BackendStart {
    pub trace_filter: String,
    pub perf_trace_filter: String,
    /// The task that serves its requests. One that is stopped from the start
    /// takes none of them: they are dropped.
    pub task: GetTracingBackend,
}

/// The variable that holds the trace filter.
pub fn trace_filter_variable() -> (name: &'static str)
    ensures
        name@ == "OPENVMM_LOG"@,
{
    "OPENVMM_LOG"
}

/// The variable that holds the performance trace filter.
pub fn perf_trace_filter_variable() -> (name: &'static str)
    ensures
        name@ == "OPENVMM_PERF_TRACE"@,
{
    "OPENVMM_PERF_TRACE"
}

/// The variable that turns rate limiting off.
pub fn rate_limit_variable() -> (name: &'static str)
    ensures
        name@ == "OPENVMM_DISABLE_TRACING_RATELIMITS"@,
{
    "OPENVMM_DISABLE_TRACING_RATELIMITS"
}

/// What the backend starts with, given what its two variables hold and whether
/// the log channel to the host opened. A channel that did not is no error: the
/// backend is built all the same, and its requests are dropped.
pub fn init_tracing_backend(
    log: Option<String>,
    perf_trace: Option<String>,
    channel_opened: bool,
) -> (start: BackendStart)
    ensures
        start.trace_filter@ == (match log {
            Some(log) => log@,
            None => "info"@,
        }),
        start.perf_trace_filter@ == (match perf_trace {
            Some(perf_trace) => perf_trace@,
            None => "off"@,
        }),
        start.task == (if channel_opened {
            GetTracingBackend::Collecting
        } else {
            GetTracingBackend::Stopped
        }),
{
    let trace_filter = match log {
        Some(log) => log,
        None => "info".to_owned(),
    };
    let perf_trace_filter = match perf_trace {
        Some(perf_trace) => perf_trace,
        None => "off".to_owned(),
    };
    let task = if channel_opened {
        GetTracingBackend::Collecting
    } else {
        GetTracingBackend::Stopped
    };
    BackendStart { trace_filter, perf_trace_filter, task }
}

/// How tracing is to be enabled.
#[derive(Clone, Copy, Debug, PartialEq, Eq, Structural)]
pub struct TracingPlan {
    /// Turn rate limiting off for the whole process.
    pub disable_rate_limits: bool,
    /// Let only those events pass that a confidential VM may emit.
    pub confidential_filter: bool,
}

/// How to enable tracing, given what the variable for rate limits holds and
/// whether a confidential VM filters its output.
pub fn init_tracing(disable_rate_limits: Option<String>, confidential_filtering: bool) -> (plan:
    TracingPlan)
    ensures
        plan.disable_rate_limits == (disable_rate_limits is Some && disable_rate_limits->0@.len()
            > 0),
        plan.confidential_filter == confidential_filtering,
{
    let disable = match disable_rate_limits {
        Some(value) => !value.as_str().is_empty(),
        None => false,
    };
    TracingPlan { disable_rate_limits: disable, confidential_filter: confidential_filtering }
}

/// Where events go.
#[derive(Clone, Copy, Debug, PartialEq, Eq, Structural)]
pub enum Output {
    /// To the tracing backend, and by it to the host.
    MeshWriter,
    /// To the kernel log, and by it to the serial port.
    Kmsg,
}

impl TracingPlan {
    /// Whether an event reaches an output, where `allowed` is whether the
    /// confidentiality filter finds that it may leave a confidential VM.
    pub open spec fn spec_reaches(self, output: Output, allowed: bool) -> bool {
        !self.confidential_filter || allowed
    }

    /// Whether an event that is wanted reaches an output.
    pub fn reaches(&self, output: Output, allowed: bool) -> (reached: bool)
        ensures
            reached == self.spec_reaches(output, allowed),
    {
        match output {
            Output::MeshWriter | Output::Kmsg => !self.confidential_filter || allowed,
        }
    }
}

/// Both outputs are filtered alike. Where a confidential VM filters, exactly
/// the events that may leave it reach them, and otherwise all do.
pub proof fn law_outputs_are_filtered_alike(plan: TracingPlan, allowed: bool)
    ensures
        plan.spec_reaches(Output::MeshWriter, allowed) == plan.spec_reaches(Output::Kmsg, allowed),
        plan.confidential_filter ==> plan.spec_reaches(Output::MeshWriter, allowed) == allowed,
        !plan.confidential_filter ==> plan.spec_reaches(Output::MeshWriter, allowed),
{
}

/// A notification for the host. No flag is set in it.
#[derive(Debug)]
pub struct Notification {
    pub log_type: LogType,
    pub level: LogLevel,
    pub activity_id: Option<[u8; 16]>,
    pub related_activity_id: Option<[u8; 16]>,
    pub correlation_id: Option<[u8; 16]>,
    pub name: Option<Vec<u8>>,
    pub target: Option<Vec<u8>>,
    pub fields: Option<Vec<u8>>,
    pub message: Vec<u8>,
    pub timestamp: u64,
}

/// What a notification for a request of this type reports.
pub open spec fn log_type_of(log_type: Type) -> LogType {
    match log_type {
        Type::Event => LogType::Event,
        Type::SpanEnter => LogType::SpanEnter,
        Type::SpanExit => LogType::SpanExit,
    }
}

/// The notification that a request becomes.
pub open spec fn notification_of(request: TraceRequest) -> Notification {
    Notification {
        log_type: log_type_of(request.log_type),
        level: log_level_of(request.level),
        activity_id: request.activity_id,
        related_activity_id: request.related_activity_id,
        correlation_id: request.correlation_id,
        name: request.name,
        target: request.target,
        fields: request.fields,
        message: request.message,
        timestamp: request.timestamp,
    }
}

/// Computes [`notification_of`].
pub fn notification(request: TraceRequest) -> (notification: Notification)
    ensures
        notification == notification_of(request),
{
    let log_type = match request.log_type {
        Type::Event => LogType::Event,
        Type::SpanEnter => LogType::SpanEnter,
        Type::SpanExit => LogType::SpanExit,
    };
    Notification {
        log_type,
        level: tracing_log_level(request.level),
        activity_id: request.activity_id,
        related_activity_id: request.related_activity_id,
        correlation_id: request.correlation_id,
        name: request.name,
        target: request.target,
        fields: request.fields,
        message: request.message,
        timestamp: request.timestamp,
    }
}

/// The task that writes notifications to the host.
#[derive(Clone, Copy, Debug, PartialEq, Eq, Structural)]
pub enum GetTracingBackend {
    /// It waits for a trace request, a flush, or the end.
    Collecting,
    /// It takes whatever trace requests are there already, on behalf of a
    /// flush or because the end has come.
    Draining { flush: bool },
    /// It waits for the host to read everything.
    Settling { flush: bool },
    /// It is done.
    Stopped,
}

/// What the task learns.
#[derive(Debug)]
pub enum BackendInput {
    /// A trace request was there.
    Trace(TraceRequest),
    /// A flush was requested.
    Flush,
    /// No flush will be requested any more.
    Done,
    /// No trace request was there.
    QueueEmpty,
    /// The wait for the host is over, successful or not.
    HostWaited,
}

/// What the task does.
#[derive(Debug)]
pub enum BackendAction {
    /// Send this, and go on even if that fails.
    Send(Notification),
    /// Look for a trace request without waiting.
    Poll,
    /// Wait for the host to read everything.
    WaitForHost,
    /// Complete the flush that started the drain.
    CompleteFlush,
    /// Return.
    Stop,
}

impl GetTracingBackend {
    /// Whether the task can learn this in its state.
    pub open spec fn spec_accepts(self, input: BackendInput) -> bool {
        match input {
            BackendInput::Trace(_) => self is Collecting || self is Draining,
            BackendInput::Flush | BackendInput::Done => self is Collecting,
            BackendInput::QueueEmpty => self is Draining,
            BackendInput::HostWaited => self is Settling,
        }
    }

    /// The state after an input.
    pub open spec fn spec_next(self, input: BackendInput) -> GetTracingBackend {
        match (self, input) {
            (GetTracingBackend::Collecting, BackendInput::Flush) => GetTracingBackend::Draining {
                flush: true,
            },
            (GetTracingBackend::Collecting, BackendInput::Done) => GetTracingBackend::Draining {
                flush: false,
            },
            (
                GetTracingBackend::Draining { flush },
                BackendInput::QueueEmpty,
            ) => GetTracingBackend::Settling { flush },
            (GetTracingBackend::Settling { flush }, BackendInput::HostWaited) => if flush {
                GetTracingBackend::Collecting
            } else {
                GetTracingBackend::Stopped
            },
            _ => self,
        }
    }

    /// What an input makes the task do.
    pub open spec fn spec_action(self, input: BackendInput) -> BackendAction {
        match input {
            BackendInput::Trace(request) => BackendAction::Send(notification_of(request)),
            BackendInput::Flush | BackendInput::Done => BackendAction::Poll,
            BackendInput::QueueEmpty => BackendAction::WaitForHost,
            BackendInput::HostWaited => if self == (GetTracingBackend::Settling { flush: true }) {
                BackendAction::CompleteFlush
            } else {
                BackendAction::Stop
            },
        }
    }

    /// Whether the task can learn this in its state.
    pub fn accepts(&self, input: &BackendInput) -> (accepted: bool)
        ensures
            accepted == self.spec_accepts(*input),
    {
        match input {
            BackendInput::Trace(_) => match self {
                GetTracingBackend::Collecting => true,
                GetTracingBackend::Draining { .. } => true,
                _ => false,
            },
            BackendInput::Flush | BackendInput::Done => match self {
                GetTracingBackend::Collecting => true,
                _ => false,
            },
            BackendInput::QueueEmpty => match self {
                GetTracingBackend::Draining { .. } => true,
                _ => false,
            },
            BackendInput::HostWaited => match self {
                GetTracingBackend::Settling { .. } => true,
                _ => false,
            },
        }
    }

    /// Goes on from one input to the next.
    pub fn run(&mut self, input: BackendInput) -> (action: BackendAction)
        requires
            old(self).spec_accepts(input),
        ensures
            *final(self) == old(self).spec_next(input),
            action == old(self).spec_action(input),
    {
        match input {
            BackendInput::Trace(request) => BackendAction::Send(notification(request)),
            BackendInput::Flush => {
                *self = GetTracingBackend::Draining { flush: true };
                BackendAction::Poll
            },
            BackendInput::Done => {
                *self = GetTracingBackend::Draining { flush: false };
                BackendAction::Poll
            },
            BackendInput::QueueEmpty => {
                let flush = match *self {
                    GetTracingBackend::Draining { flush } => flush,
                    _ => false,
                };
                *self = GetTracingBackend::Settling { flush };
                BackendAction::WaitForHost
            },
            BackendInput::HostWaited => {
                let flush = match *self {
                    GetTracingBackend::Settling { flush } => flush,
                    _ => false,
                };
                if flush {
                    *self = GetTracingBackend::Collecting;
                    BackendAction::CompleteFlush
                } else {
                    *self = GetTracingBackend::Stopped;
                    BackendAction::Stop
                }
            },
        }
    }
}

/// The state after a task that starts by collecting has learned `inputs`.
pub open spec fn state_after(inputs: Seq<BackendInput>) -> GetTracingBackend
    decreases inputs.len(),
{
    if inputs.len() == 0 {
        GetTracingBackend::Collecting
    } else {
        state_after(inputs.drop_last()).spec_next(inputs.last())
    }
}

/// Whether such a task can learn `inputs` in this order.
pub open spec fn possible(inputs: Seq<BackendInput>) -> bool
    decreases inputs.len(),
{
    inputs.len() == 0 || (possible(inputs.drop_last()) && state_after(
        inputs.drop_last(),
    ).spec_accepts(inputs.last()))
}

/// The notifications that such a task sends.
pub open spec fn sent(inputs: Seq<BackendInput>) -> Seq<Notification>
    decreases inputs.len(),
{
    if inputs.len() == 0 {
        Seq::empty()
    } else {
        match state_after(inputs.drop_last()).spec_action(inputs.last()) {
            BackendAction::Send(notification) => sent(inputs.drop_last()).push(notification),
            _ => sent(inputs.drop_last()),
        }
    }
}

/// How many flushes such a task completes.
pub open spec fn completed_flushes(inputs: Seq<BackendInput>) -> nat
    decreases inputs.len(),
{
    if inputs.len() == 0 {
        0
    } else {
        completed_flushes(inputs.drop_last()) + (if state_after(inputs.drop_last()).spec_action(
            inputs.last(),
        ) is CompleteFlush {
            1nat
        } else {
            0
        })
    }
}

/// The trace requests among `inputs`.
pub open spec fn received(inputs: Seq<BackendInput>) -> Seq<TraceRequest>
    decreases inputs.len(),
{
    if inputs.len() == 0 {
        Seq::empty()
    } else {
        match inputs.last() {
            BackendInput::Trace(request) => received(inputs.drop_last()).push(request),
            _ => received(inputs.drop_last()),
        }
    }
}

/// How many flushes are requested in `inputs`.
pub open spec fn requested_flushes(inputs: Seq<BackendInput>) -> nat
    decreases inputs.len(),
{
    if inputs.len() == 0 {
        0
    } else {
        requested_flushes(inputs.drop_last()) + (if inputs.last() is Flush {
            1nat
        } else {
            0
        })
    }
}

/// A task that is stopped takes nothing: no trace request is sent and no flush
/// is served.
pub proof fn law_stopped_task_takes_nothing(input: BackendInput)
    ensures
        !GetTracingBackend::Stopped.spec_accepts(input),
{
}

/// Every trace request that reaches the task is sent, once and in order.
pub proof fn law_every_request_is_sent_in_order(inputs: Seq<BackendInput>)
    ensures
        sent(inputs) == received(inputs).map_values(
            |request: TraceRequest| notification_of(request),
        ),
    decreases inputs.len(),
{
    let f = |request: TraceRequest| notification_of(request);
    if inputs.len() == 0 {
        assert(sent(inputs) =~= received(inputs).map_values(f));
    } else {
        law_every_request_is_sent_in_order(inputs.drop_last());
        assert(sent(inputs) =~= received(inputs).map_values(f));
    }
}

/// Every flush is completed, once: whenever the task collects, all that were
/// requested are done, and otherwise at most the one at hand is not.
pub proof fn law_every_flush_is_completed(inputs: Seq<BackendInput>)
    requires
        possible(inputs),
    ensures
        requested_flushes(inputs) == completed_flushes(inputs) + (match state_after(inputs) {
            GetTracingBackend::Draining { flush: true } => 1nat,
            GetTracingBackend::Settling { flush: true } => 1nat,
            _ => 0nat,
        }),
    decreases inputs.len(),
{
    if inputs.len() > 0 {
        law_every_flush_is_completed(inputs.drop_last());
    }
}

/// A flush is completed, and the task stops, only right after the queue was
/// found empty and the host was waited for.
pub proof fn law_drained_before_completion(inputs: Seq<BackendInput>, last: BackendInput)
    requires
        possible(inputs.push(last)),
        state_after(inputs).spec_action(last) is CompleteFlush || state_after(inputs).spec_action(
            last,
        ) is Stop,
    ensures
        last is HostWaited,
        inputs.len() > 0,
        inputs.last() is QueueEmpty,
{
    reveal_with_fuel(possible, 3);
    assert(inputs.push(last).drop_last() =~= inputs);
}

} // verus!
