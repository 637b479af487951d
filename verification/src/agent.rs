//! The migration agent: its start, the diagnostics requests it answers, and
//! its end.

use crate::text::same_text;
use vstd::prelude::*;

verus! {

/// The vsock port that diagnostics connections are made to.
pub const VSOCK_CONTROL_PORT: u32 = 1;

/// The vsock port that diagnostics data goes through.
pub const VSOCK_DATA_PORT: u32 = 2;

/// How many seconds the tracing backend gets to shut down.
pub const SHUTDOWN_TIMEOUT_SECONDS: u64 = 5;

/// The programs that share one binary.
#[derive(Clone, Copy, Debug, PartialEq, Eq, Structural)]
pub enum Program {
    /// The first process, which sets the system up.
    UnderhillInit,
    /// The agent.
    MigrationAgent,
}

/// The program to run under the file name that the binary was started by.
pub fn program_for(file_name: &str) -> (program: Program)
    ensures
        program == (if file_name@ == "underhill-init"@ {
            Program::UnderhillInit
        } else {
            Program::MigrationAgent
        }),
{
    if same_text(file_name, "underhill-init") {
        Program::UnderhillInit
    } else {
        Program::MigrationAgent
    }
}

/// State that can be inspected.
#[derive(Clone, Copy, Debug)]
pub struct AgentState {
    pub status: &'static str,
}

/// How much a field gives away.
#[derive(Clone, Copy, Debug, PartialEq, Eq, Structural)]
pub enum Sensitivity {
    /// It can be shown of a confidential VM.
    Safe,
    /// It cannot.
    Sensitive,
}

/// What a field of an inspection shows.
#[derive(Clone, Copy, Debug)]
pub enum InspectedValue {
    State(AgentState),
    /// The information on the build.
    BuildInfo,
}

/// A field of an inspection.
#[derive(Clone, Copy, Debug)]
pub struct InspectedField {
    pub name: &'static str,
    pub sensitivity: Sensitivity,
    pub value: InspectedValue,
}

/// The fields of an inspection are `state`, with the status `running`, and
/// `build_info`, both safe.
pub open spec fn shows_state_and_build(fields: Seq<InspectedField>) -> bool {
    &&& fields.len() == 2
    &&& fields[0].name@ == "state"@
    &&& fields[0].sensitivity == Sensitivity::Safe
    &&& fields[0].value matches InspectedValue::State(state)
    &&& state.status@ == "running"@
    &&& fields[1].name@ == "build_info"@
    &&& fields[1].sensitivity == Sensitivity::Safe
    &&& fields[1].value is BuildInfo
}

/// The fields of an inspection.
pub fn inspection() -> (fields: [InspectedField; 2])
    ensures
        shows_state_and_build(fields@),
{
    let state = InspectedField {
        name: "state",
        sensitivity: Sensitivity::Safe,
        value: InspectedValue::State(AgentState { status: "running" }),
    };
    let build_info = InspectedField {
        name: "build_info",
        sensitivity: Sensitivity::Safe,
        value: InspectedValue::BuildInfo,
    };
    [state, build_info]
}

/// The kinds of diagnostics requests.
#[derive(Clone, Copy, Debug, PartialEq, Eq, Structural)]
pub enum DiagRequest {
    Inspect,
    Crash,
    Start,
    Restart,
    Pause,
    Resume,
    Save,
    PacketCapture,
}

/// What a diagnostics request gets.
#[derive(Clone, Copy, Debug)]
pub enum DiagReply {
    /// Exactly these fields.
    Inspection([InspectedField; 2]),
    /// Nothing.
    Ignored,
    /// This error.
    Unsupported(&'static str),
}

/// The error for a request that is not supported.
pub open spec fn refusal(request: DiagRequest) -> Seq<char> {
    match request {
        DiagRequest::Start => "start not supported by migration_agent"@,
        DiagRequest::Restart => "restart not supported"@,
        DiagRequest::Pause => "pause not supported"@,
        DiagRequest::Resume => "resume not supported"@,
        DiagRequest::Save => "save not supported"@,
        DiagRequest::PacketCapture => "packet capture not supported"@,
        DiagRequest::Inspect | DiagRequest::Crash => Seq::empty(),
    }
}

/// Whether `reply` is what `request` gets.
pub open spec fn replies(request: DiagRequest, reply: DiagReply) -> bool {
    match request {
        DiagRequest::Inspect => reply matches DiagReply::Inspection(fields)
            && shows_state_and_build(fields@),
        DiagRequest::Crash => reply is Ignored,
        _ => reply matches DiagReply::Unsupported(error) && error@ == refusal(request),
    }
}

/// Answers a diagnostics request: only inspection is supported.
pub fn diag_reply(request: DiagRequest) -> (reply: DiagReply)
    ensures
        replies(request, reply),
{
    match request {
        DiagRequest::Inspect => DiagReply::Inspection(inspection()),
        DiagRequest::Crash => DiagReply::Ignored,
        DiagRequest::Start => DiagReply::Unsupported("start not supported by migration_agent"),
        DiagRequest::Restart => DiagReply::Unsupported("restart not supported"),
        DiagRequest::Pause => DiagReply::Unsupported("pause not supported"),
        DiagRequest::Resume => DiagReply::Unsupported("resume not supported"),
        DiagRequest::Save => DiagReply::Unsupported("save not supported"),
        DiagRequest::PacketCapture => DiagReply::Unsupported("packet capture not supported"),
    }
}

/// What made the agent fail.
#[derive(Clone, Copy, Debug, PartialEq, Eq, Structural)]
pub enum AgentFailure {
    /// There is no diagnostics server.
    CreateServer,
    /// The connection that signals the start could not be made.
    SpawnGetWorker,
    /// That connection broke.
    GetWorker,
    /// The diagnostics server failed.
    Server,
}

/// The outer context of a failure.
pub open spec fn failure_context(failure: AgentFailure) -> Seq<char> {
    match failure {
        AgentFailure::CreateServer => "failed to create diagnostics server"@,
        AgentFailure::SpawnGetWorker | AgentFailure::GetWorker => "failed to signal vtl0 started"@,
        AgentFailure::Server => "diagnostics server failed"@,
    }
}

/// The inner context of a failure, if it has one.
pub open spec fn failure_cause(failure: AgentFailure) -> Option<Seq<char>> {
    match failure {
        AgentFailure::SpawnGetWorker => Some("failed to spawn GET worker"@),
        AgentFailure::GetWorker => Some("GET worker failed"@),
        AgentFailure::CreateServer | AgentFailure::Server => None,
    }
}

impl AgentFailure {
    /// Computes [`failure_context`].
    pub fn context(self) -> (context: &'static str)
        ensures
            context@ == failure_context(self),
    {
        match self {
            AgentFailure::CreateServer => "failed to create diagnostics server",
            AgentFailure::SpawnGetWorker | AgentFailure::GetWorker =>
                "failed to signal vtl0 started",
            AgentFailure::Server => "diagnostics server failed",
        }
    }

    /// Computes [`failure_cause`].
    pub fn cause(self) -> (cause: Option<&'static str>)
        ensures
            match cause {
                Some(cause) => failure_cause(self) == Some(cause@),
                None => failure_cause(self) is None,
            },
    {
        match self {
            AgentFailure::SpawnGetWorker => Some("failed to spawn GET worker"),
            AgentFailure::GetWorker => Some("GET worker failed"),
            AgentFailure::CreateServer | AgentFailure::Server => None,
        }
    }
}

/// The agent.
#[derive(Clone, Copy, Debug, PartialEq, Eq, Structural)]
pub enum Agent {
    /// It creates the diagnostics server.
    CreatingServer,
    /// It connects to the host to signal the start of VTL0, without which the
    /// host leaves the VM in a starting state.
    SpawningGetWorker,
    /// It has signalled and lets go of the connection, so that it is free for
    /// other uses.
    ReleasingGetWorker,
    /// It serves diagnostics requests.
    Serving,
    /// It shuts tracing down.
    ShuttingDown,
    /// It has ended.
    Ended,
}

/// What the agent learns. Where it says so, `true` is for success.
#[derive(Clone, Copy, Debug, PartialEq, Eq, Structural)]
pub enum AgentInput {
    ServerCreated(bool),
    GetWorkerSpawned(bool),
    /// The start was signalled, the connection dropped, and its worker ended.
    GetWorkerEnded(bool),
    Diag(DiagRequest),
    /// No request will come any more.
    RequestsClosed,
    ServerDone(bool),
    /// Tracing was shut down, or the time for that is over.
    ShutdownOver,
}

/// What the agent does.
#[derive(Clone, Copy, Debug)]
pub enum AgentAction {
    SpawnGetWorker,
    SignalStart,
    /// Wait for a request or the end of the server.
    Serve,
    Reply(DiagReply),
    /// Shut tracing down within the timeout.
    ShutDown,
    ExitOk,
    ExitErr(AgentFailure),
}

impl Agent {
    /// Whether the agent can learn this in its state.
    pub open spec fn spec_accepts(self, input: AgentInput) -> bool {
        match input {
            AgentInput::ServerCreated(_) => self == Agent::CreatingServer,
            AgentInput::GetWorkerSpawned(_) => self == Agent::SpawningGetWorker,
            AgentInput::GetWorkerEnded(_) => self == Agent::ReleasingGetWorker,
            AgentInput::Diag(_) | AgentInput::RequestsClosed | AgentInput::ServerDone(_) => self
                == Agent::Serving,
            AgentInput::ShutdownOver => self == Agent::ShuttingDown,
        }
    }

    /// The state after an input.
    pub open spec fn spec_next(self, input: AgentInput) -> Agent {
        match input {
            AgentInput::ServerCreated(true) => Agent::SpawningGetWorker,
            AgentInput::GetWorkerSpawned(true) => Agent::ReleasingGetWorker,
            AgentInput::GetWorkerEnded(true) => Agent::Serving,
            AgentInput::Diag(_) => Agent::Serving,
            AgentInput::RequestsClosed | AgentInput::ServerDone(true) => Agent::ShuttingDown,
            _ => Agent::Ended,
        }
    }

    /// Whether an input makes the agent do this.
    pub open spec fn acts(input: AgentInput, action: AgentAction) -> bool {
        match input {
            AgentInput::ServerCreated(true) => action is SpawnGetWorker,
            AgentInput::ServerCreated(false) => action == AgentAction::ExitErr(
                AgentFailure::CreateServer,
            ),
            AgentInput::GetWorkerSpawned(true) => action is SignalStart,
            AgentInput::GetWorkerSpawned(false) => action == AgentAction::ExitErr(
                AgentFailure::SpawnGetWorker,
            ),
            AgentInput::GetWorkerEnded(true) => action is Serve,
            AgentInput::GetWorkerEnded(false) => action == AgentAction::ExitErr(
                AgentFailure::GetWorker,
            ),
            AgentInput::Diag(request) => action matches AgentAction::Reply(reply) && replies(
                request,
                reply,
            ),
            AgentInput::RequestsClosed | AgentInput::ServerDone(true) => action is ShutDown,
            AgentInput::ServerDone(false) => action == AgentAction::ExitErr(AgentFailure::Server),
            AgentInput::ShutdownOver => action is ExitOk,
        }
    }

    /// Whether the agent can learn this in its state.
    pub fn accepts(&self, input: AgentInput) -> (accepted: bool)
        ensures
            accepted == self.spec_accepts(input),
    {
        match input {
            AgentInput::ServerCreated(_) => *self == Agent::CreatingServer,
            AgentInput::GetWorkerSpawned(_) => *self == Agent::SpawningGetWorker,
            AgentInput::GetWorkerEnded(_) => *self == Agent::ReleasingGetWorker,
            AgentInput::Diag(_) | AgentInput::RequestsClosed | AgentInput::ServerDone(_) => *self
                == Agent::Serving,
            AgentInput::ShutdownOver => *self == Agent::ShuttingDown,
        }
    }

    /// Goes on from one input to the next.
    pub fn advance(&mut self, input: AgentInput) -> (action: AgentAction)
        requires
            old(self).spec_accepts(input),
        ensures
            *final(self) == old(self).spec_next(input),
            Self::acts(input, action),
    {
        match input {
            AgentInput::ServerCreated(true) => {
                *self = Agent::SpawningGetWorker;
                AgentAction::SpawnGetWorker
            },
            AgentInput::ServerCreated(false) => {
                *self = Agent::Ended;
                AgentAction::ExitErr(AgentFailure::CreateServer)
            },
            AgentInput::GetWorkerSpawned(true) => {
                *self = Agent::ReleasingGetWorker;
                AgentAction::SignalStart
            },
            AgentInput::GetWorkerSpawned(false) => {
                *self = Agent::Ended;
                AgentAction::ExitErr(AgentFailure::SpawnGetWorker)
            },
            AgentInput::GetWorkerEnded(true) => {
                *self = Agent::Serving;
                AgentAction::Serve
            },
            AgentInput::GetWorkerEnded(false) => {
                *self = Agent::Ended;
                AgentAction::ExitErr(AgentFailure::GetWorker)
            },
            AgentInput::Diag(request) => AgentAction::Reply(diag_reply(request)),
            AgentInput::RequestsClosed | AgentInput::ServerDone(true) => {
                *self = Agent::ShuttingDown;
                AgentAction::ShutDown
            },
            AgentInput::ServerDone(false) => {
                *self = Agent::Ended;
                AgentAction::ExitErr(AgentFailure::Server)
            },
            AgentInput::ShutdownOver => {
                *self = Agent::Ended;
                AgentAction::ExitOk
            },
        }
    }
}

/// The state of an agent that has learned `inputs`.
pub open spec fn agent_after(inputs: Seq<AgentInput>) -> Agent
    decreases inputs.len(),
{
    if inputs.len() == 0 {
        Agent::CreatingServer
    } else {
        agent_after(inputs.drop_last()).spec_next(inputs.last())
    }
}

/// Whether an agent can learn `inputs` in this order.
pub open spec fn agent_possible(inputs: Seq<AgentInput>) -> bool
    decreases inputs.len(),
{
    inputs.len() == 0 || (agent_possible(inputs.drop_last()) && agent_after(
        inputs.drop_last(),
    ).spec_accepts(inputs.last()))
}

/// The start of VTL0 is signalled before any request is served: an agent that
/// serves or shuts down has created its server, signalled, and released the
/// connection, in this order.
pub proof fn law_start_is_signalled_before_serving(inputs: Seq<AgentInput>)
    requires
        agent_possible(inputs),
        agent_after(inputs) == Agent::Serving || agent_after(inputs) == Agent::ShuttingDown,
    ensures
        inputs.len() >= 3,
        inputs[0] == AgentInput::ServerCreated(true),
        inputs[1] == AgentInput::GetWorkerSpawned(true),
        inputs[2] == AgentInput::GetWorkerEnded(true),
    decreases inputs.len(),
{
    let front = inputs.drop_last();
    if agent_after(front) == Agent::Serving {
        law_start_is_signalled_before_serving(front);
        assert(front[0] == inputs[0] && front[1] == inputs[1] && front[2] == inputs[2]);
    } else {
        reveal_with_fuel(agent_possible, 5);
        reveal_with_fuel(agent_after, 5);
        assert(inputs.last() == AgentInput::GetWorkerEnded(true));
        let second = front.drop_last();
        assert(front.last() == AgentInput::GetWorkerSpawned(true));
        let first = second.drop_last();
        assert(second.last() == AgentInput::ServerCreated(true));
        assert(agent_after(first) == Agent::CreatingServer);
        if first.len() > 0 {
            assert(agent_after(first.drop_last()).spec_next(first.last())
                == Agent::CreatingServer);
        }
    }
}

/// No diagnostics request ends the agent or changes what it does next.
pub proof fn law_requests_keep_the_agent_serving(agent: Agent, request: DiagRequest)
    requires
        agent.spec_accepts(AgentInput::Diag(request)),
    ensures
        agent.spec_next(AgentInput::Diag(request)) == agent,
{
}

/// The agent exits without an error only after a graceful shutdown, and an
/// error cuts the shutdown short.
pub proof fn law_success_follows_shutdown(agent: Agent, input: AgentInput, action: AgentAction)
    requires
        agent.spec_accepts(input),
        Agent::acts(input, action),
    ensures
        action is ExitOk <==> agent == Agent::ShuttingDown,
        action is ExitErr ==> agent != Agent::ShuttingDown,
        agent.spec_next(input) == Agent::Ended <==> action is ExitOk || action is ExitErr,
{
}

} // verus!
