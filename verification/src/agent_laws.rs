//! What the agent and its tracing do, told by the events, requests and texts
//! that go in and come out.

use crate::agent::{
    failure_cause, failure_context, replies, Agent, AgentAction, AgentFailure, AgentInput, DiagReply,
    DiagRequest, InspectedValue, Sensitivity,
};
use crate::mesh_layer::{
    fields_with, mesh_level, message_with, timestamp_of, Level, SubscriberLevel, TraceRequest, Type,
};
use crate::tracing_setup::{
    legacy_name, log_level_of, log_type_of, notification_of, BackendAction, BackendInput,
    GetTracingBackend, LogLevel, LogType,
};
use vstd::prelude::*;

verus! {

/// A `message` extends the message by its text and leaves the fields alone.
pub proof fn law_message_is_extended(message: Seq<char>, fields: Seq<char>, value: Seq<char>)
    ensures
        message_with(message, ("message"@, value)) == message + value,
        fields_with(fields, ("message"@, value)) == fields,
{
}

/// Anything else becomes a field, written as its name, an equals sign and its
/// value, behind a single space unless it is the first; the message stays.
pub proof fn law_field_is_appended(
    message: Seq<char>,
    fields: Seq<char>,
    name: Seq<char>,
    value: Seq<char>,
)
    requires
        name != "message"@,
    ensures
        message_with(message, (name, value)) == message,
        fields_with(Seq::empty(), (name, value)) == name + seq!['='] + value,
        fields.len() > 0 ==> fields_with(fields, (name, value)) == fields + seq![' '] + name
            + seq!['='] + value,
{
    reveal_strlit("=");
    reveal_strlit(" ");
    assert("="@ =~= seq!['=']);
    assert(" "@ =~= seq![' ']);
    if fields.len() > 0 {
        assert(fields_with(fields, (name, value)) =~= fields + seq![' '] + name + seq!['=']
            + value);
    }
}

/// A timestamp counts nanoseconds since the epoch, up to a multiple of two to
/// the 64th; before the epoch it is zero.
pub proof fn law_timestamp_counts_nanoseconds(seconds: u64, nanos: u32)
    ensures
        timestamp_of(None) == 0,
        timestamp_of(Some((seconds, nanos))) < 0x1_0000_0000_0000_0000,
        seconds * 1_000_000_000 + nanos < 0x1_0000_0000_0000_0000 ==> timestamp_of(
            Some((seconds, nanos)),
        ) == seconds * 1_000_000_000 + nanos,
        (seconds * 1_000_000_000 + nanos - timestamp_of(Some((seconds, nanos))))
            % 0x1_0000_0000_0000_0000 == 0,
{
    let total = seconds * 1_000_000_000 + nanos;
    let m: int = 0x1_0000_0000_0000_0000;
    assert(timestamp_of(Some((seconds, nanos))) == total % m);
    vstd::arithmetic::div_mod::lemma_fundamental_div_mod(total, m);
    vstd::arithmetic::div_mod::lemma_mod_multiples_basic(total / m, m);
    assert(total - total % m == (total / m) * m) by (nonlinear_arith)
        requires
            total == m * (total / m) + total % m,
    ;
}

/// A notification carries everything that its request holds, unchanged.
pub proof fn law_notification_carries_its_request(request: TraceRequest)
    ensures
        notification_of(request).message == request.message,
        notification_of(request).name == request.name,
        notification_of(request).target == request.target,
        notification_of(request).fields == request.fields,
        notification_of(request).timestamp == request.timestamp,
        notification_of(request).activity_id == request.activity_id,
        notification_of(request).related_activity_id == request.related_activity_id,
        notification_of(request).correlation_id == request.correlation_id,
        notification_of(request).log_type is Event <==> request.log_type is Event,
        notification_of(request).log_type is SpanEnter <==> request.log_type is SpanEnter,
        notification_of(request).log_type is SpanExit <==> request.log_type is SpanExit,
        notification_of(request).level is Error <==> request.level is Error,
        notification_of(request).level is Warning <==> request.level is Warn,
        notification_of(request).level is Information <==> request.level is Info,
{
}

/// How severe a level is.
pub open spec fn severity(level: SubscriberLevel) -> int {
    match level {
        SubscriberLevel::Trace => 0,
        SubscriberLevel::Debug => 1,
        SubscriberLevel::Info => 2,
        SubscriberLevel::Warn => 3,
        SubscriberLevel::Error => 4,
    }
}

/// Levels keep their severity on the way to the host, where the two lowest
/// become one.
pub proof fn law_levels_keep_their_severity(level: SubscriberLevel)
    ensures
        mesh_level(level) == Level::Trace <==> severity(level) == 0,
        mesh_level(level) == Level::Debug <==> severity(level) == 1,
        mesh_level(level) == Level::Info <==> severity(level) == 2,
        mesh_level(level) == Level::Warn <==> severity(level) == 3,
        mesh_level(level) == Level::Error <==> severity(level) == 4,
        log_level_of(mesh_level(level)) == LogLevel::Verbose <==> severity(level) <= 1,
        log_level_of(mesh_level(level)) == LogLevel::Information <==> severity(level) == 2,
        log_level_of(mesh_level(level)) == LogLevel::Warning <==> severity(level) == 3,
        log_level_of(mesh_level(level)) == LogLevel::Error <==> severity(level) == 4,
{
}

/// What a request reports, its notification reports.
pub proof fn law_types_are_kept(log_type: Type)
    ensures
        log_type_of(log_type) == LogType::Event <==> log_type is Event,
        log_type_of(log_type) == LogType::SpanEnter <==> log_type is SpanEnter,
        log_type_of(log_type) == LogType::SpanExit <==> log_type is SpanExit,
{
}

/// A variable `OPENVMM_x` was called `HVLITE_x`, and one of another name had it
/// behind `HVLITE_`.
pub proof fn law_legacy_names(name: Seq<char>, rest: Seq<char>)
    ensures
        legacy_name("OPENVMM_"@ + rest) == "HVLITE_"@ + rest,
        !"OPENVMM_"@.is_prefix_of(name) ==> legacy_name(name) == "HVLITE_"@ + name,
{
    crate::text_laws::law_prefix_and_rest_make_the_text(name, "OPENVMM_"@, rest);
}

/// From input to input the backend task does what its state calls for: it sends
/// each request, drains before it waits for the host, and waits before it
/// completes a flush or stops.
pub proof fn law_backend_task_moves_on(task: GetTracingBackend, input: BackendInput)
    requires
        task.spec_accepts(input),
    ensures
        match input {
            BackendInput::Trace(request) => (task is Collecting || task is Draining)
                && task.spec_next(input) == task && task.spec_action(input) == BackendAction::Send(
                notification_of(request),
            ),
            BackendInput::Flush => task is Collecting && task.spec_next(input) == (
            GetTracingBackend::Draining { flush: true }) && task.spec_action(input) is Poll,
            BackendInput::Done => task is Collecting && task.spec_next(input) == (
            GetTracingBackend::Draining { flush: false }) && task.spec_action(input) is Poll,
            BackendInput::QueueEmpty => task is Draining && task.spec_next(input) == (
            GetTracingBackend::Settling { flush: task->Draining_flush }) && task.spec_action(input)
                is WaitForHost,
            BackendInput::HostWaited => task is Settling && (task->Settling_flush
                ==> task.spec_next(input) == GetTracingBackend::Collecting && task.spec_action(input)
                is CompleteFlush) && (!task->Settling_flush ==> task.spec_next(input)
                == GetTracingBackend::Stopped && task.spec_action(input) is Stop),
        },
{
}

/// In each state the task can learn all that can come up in it.
pub proof fn law_backend_task_is_ready(request: TraceRequest, flush: bool)
    ensures
        GetTracingBackend::Collecting.spec_accepts(BackendInput::Trace(request)),
        GetTracingBackend::Collecting.spec_accepts(BackendInput::Flush),
        GetTracingBackend::Collecting.spec_accepts(BackendInput::Done),
        (GetTracingBackend::Draining { flush }).spec_accepts(BackendInput::Trace(request)),
        (GetTracingBackend::Draining { flush }).spec_accepts(BackendInput::QueueEmpty),
        (GetTracingBackend::Settling { flush }).spec_accepts(BackendInput::HostWaited),
{
}

/// An inspection is answered with the state and the build, a crash is ignored,
/// and everything else is refused in words that name it.
pub proof fn law_diagnostics_replies(request: DiagRequest, reply: DiagReply)
    requires
        replies(request, reply),
    ensures
        reply is Inspection <==> request is Inspect,
        reply is Ignored <==> request is Crash,
        reply matches DiagReply::Inspection(fields) ==> fields@.len() == 2 && fields@[0].name@
            == "state"@ && fields@[1].name@ == "build_info"@ && fields@[0].sensitivity
            == Sensitivity::Safe && fields@[1].sensitivity == Sensitivity::Safe && (fields@[0].value
            matches InspectedValue::State(state) && state.status@ == "running"@)
            && fields@[1].value is BuildInfo,
        reply matches DiagReply::Unsupported(error) ==> (request is Start ==> error@
            == "start not supported by migration_agent"@) && (request is Restart ==> error@
            == "restart not supported"@) && (request is Pause ==> error@ == "pause not supported"@)
            && (request is Resume ==> error@ == "resume not supported"@) && (request is Save
            ==> error@ == "save not supported"@) && (request is PacketCapture ==> error@
            == "packet capture not supported"@),
{
}

/// The agent goes from creating its server over signalling the start to
/// serving, and from serving to shutting down; a failure on the way ends it
/// with its reason, and every request is answered where it stands.
pub proof fn law_agent_moves_on(agent: Agent, input: AgentInput, action: AgentAction)
    requires
        agent.spec_accepts(input),
        Agent::acts(input, action),
    ensures
        match agent {
            Agent::CreatingServer => input matches AgentInput::ServerCreated(worked) && (if worked {
                agent.spec_next(input) == Agent::SpawningGetWorker && action is SpawnGetWorker
            } else {
                agent.spec_next(input) == Agent::Ended && action == AgentAction::ExitErr(
                    AgentFailure::CreateServer,
                )
            }),
            Agent::SpawningGetWorker => input matches AgentInput::GetWorkerSpawned(worked) && (
            if worked {
                agent.spec_next(input) == Agent::ReleasingGetWorker && action is SignalStart
            } else {
                agent.spec_next(input) == Agent::Ended && action == AgentAction::ExitErr(
                    AgentFailure::SpawnGetWorker,
                )
            }),
            Agent::ReleasingGetWorker => input matches AgentInput::GetWorkerEnded(worked) && (
            if worked {
                agent.spec_next(input) == Agent::Serving && action is Serve
            } else {
                agent.spec_next(input) == Agent::Ended && action == AgentAction::ExitErr(
                    AgentFailure::GetWorker,
                )
            }),
            Agent::Serving => match input {
                AgentInput::Diag(request) => agent.spec_next(input) == Agent::Serving && (action
                    matches AgentAction::Reply(reply) && replies(request, reply)),
                AgentInput::RequestsClosed => agent.spec_next(input) == Agent::ShuttingDown
                    && action is ShutDown,
                AgentInput::ServerDone(worked) => if worked {
                    agent.spec_next(input) == Agent::ShuttingDown && action is ShutDown
                } else {
                    agent.spec_next(input) == Agent::Ended && action == AgentAction::ExitErr(
                        AgentFailure::Server,
                    )
                },
                _ => false,
            },
            Agent::ShuttingDown => input is ShutdownOver && agent.spec_next(input) == Agent::Ended
                && action is ExitOk,
            Agent::Ended => false,
        },
{
}

/// In each of its states the agent can learn all that can come up in it.
pub proof fn law_agent_is_ready(worked: bool, request: DiagRequest)
    ensures
        Agent::CreatingServer.spec_accepts(AgentInput::ServerCreated(worked)),
        Agent::SpawningGetWorker.spec_accepts(AgentInput::GetWorkerSpawned(worked)),
        Agent::ReleasingGetWorker.spec_accepts(AgentInput::GetWorkerEnded(worked)),
        Agent::Serving.spec_accepts(AgentInput::Diag(request)),
        Agent::Serving.spec_accepts(AgentInput::RequestsClosed),
        Agent::Serving.spec_accepts(AgentInput::ServerDone(worked)),
        Agent::ShuttingDown.spec_accepts(AgentInput::ShutdownOver),
{
}

/// A failure is told by what the agent was doing, and one of the connection to
/// the host also by how it failed.
pub proof fn law_failures_are_told(failure: AgentFailure)
    ensures
        failure_context(failure) == "failed to create diagnostics server"@ || failure
            != AgentFailure::CreateServer,
        failure_context(failure) == "diagnostics server failed"@ || failure != AgentFailure::Server,
        failure_cause(failure) is Some <==> failure == AgentFailure::SpawnGetWorker || failure
            == AgentFailure::GetWorker,
        failure_cause(failure) is Some ==> failure_context(failure)
            == "failed to signal vtl0 started"@,
        failure == AgentFailure::SpawnGetWorker ==> failure_cause(failure)->0
            == "failed to spawn GET worker"@,
        failure == AgentFailure::GetWorker ==> failure_cause(failure)->0 == "GET worker failed"@,
{
}

} // verus!
