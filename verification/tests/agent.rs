use openhcl_reseal::agent::{
    diag_reply, program_for, Agent, AgentAction, AgentFailure, AgentInput, DiagReply, DiagRequest,
    InspectedValue, Program, Sensitivity, SHUTDOWN_TIMEOUT_SECONDS, VSOCK_CONTROL_PORT, VSOCK_DATA_PORT,
};

#[test]
fn the_file_name_picks_the_program() {
    assert_eq!(program_for("underhill-init"), Program::UnderhillInit);
    for name in ["openvmm_hcl", "", "underhill-init2", "Underhill-init"] {
        assert_eq!(program_for(name), Program::MigrationAgent);
    }
}

#[test]
fn ports_and_timeout_are_fixed() {
    assert_eq!((VSOCK_CONTROL_PORT, VSOCK_DATA_PORT), (1, 2));
    assert_eq!(SHUTDOWN_TIMEOUT_SECONDS, 5);
}

#[test]
fn only_inspection_is_supported() {
    let DiagReply::Inspection(fields) = diag_reply(DiagRequest::Inspect) else {
        panic!("inspection is supported");
    };
    assert_eq!(fields.map(|field| field.name), ["state", "build_info"]);
    assert_eq!(
        fields.map(|field| field.sensitivity),
        [Sensitivity::Safe, Sensitivity::Safe]
    );
    assert!(matches!(
        fields[0].value,
        InspectedValue::State(state) if state.status == "running"
    ));
    assert!(matches!(fields[1].value, InspectedValue::BuildInfo));
    assert!(matches!(
        diag_reply(DiagRequest::Crash),
        DiagReply::Ignored
    ));
    let refused = [
        (
            DiagRequest::Start,
            "start not supported by migration_agent",
        ),
        (DiagRequest::Restart, "restart not supported"),
        (DiagRequest::Pause, "pause not supported"),
        (DiagRequest::Resume, "resume not supported"),
        (DiagRequest::Save, "save not supported"),
        (
            DiagRequest::PacketCapture,
            "packet capture not supported",
        ),
    ];
    for (request, words) in refused {
        assert!(matches!(
            diag_reply(request),
            DiagReply::Unsupported(error) if error == words
        ));
    }
}

fn serving() -> Agent {
    let mut agent = Agent::CreatingServer;
    assert!(matches!(
        agent.advance(AgentInput::ServerCreated(true)),
        AgentAction::SpawnGetWorker
    ));
    assert!(matches!(
        agent.advance(AgentInput::GetWorkerSpawned(true)),
        AgentAction::SignalStart
    ));
    assert!(matches!(
        agent.advance(AgentInput::GetWorkerEnded(true)),
        AgentAction::Serve
    ));
    assert_eq!(agent, Agent::Serving);
    agent
}

#[test]
fn requests_are_served_until_the_end() {
    for end in [AgentInput::RequestsClosed, AgentInput::ServerDone(true)] {
        let mut agent = serving();
        for request in [DiagRequest::Inspect, DiagRequest::Crash, DiagRequest::Save] {
            assert!(agent.accepts(AgentInput::Diag(request)));
            assert!(matches!(
                agent.advance(AgentInput::Diag(request)),
                AgentAction::Reply(_)
            ));
            assert_eq!(agent, Agent::Serving);
        }
        assert!(matches!(agent.advance(end), AgentAction::ShutDown));
        assert!(!agent.accepts(AgentInput::Diag(DiagRequest::Inspect)));
        assert!(agent.accepts(AgentInput::ShutdownOver));
        assert!(matches!(
            agent.advance(AgentInput::ShutdownOver),
            AgentAction::ExitOk
        ));
        assert_eq!(agent, Agent::Ended);
    }
}

#[test]
fn each_failure_ends_the_agent_with_its_context() {
    let failures = [
        (
            Agent::CreatingServer,
            AgentInput::ServerCreated(false),
            AgentFailure::CreateServer,
            "failed to create diagnostics server",
            None,
        ),
        (
            Agent::SpawningGetWorker,
            AgentInput::GetWorkerSpawned(false),
            AgentFailure::SpawnGetWorker,
            "failed to signal vtl0 started",
            Some("failed to spawn GET worker"),
        ),
        (
            Agent::ReleasingGetWorker,
            AgentInput::GetWorkerEnded(false),
            AgentFailure::GetWorker,
            "failed to signal vtl0 started",
            Some("GET worker failed"),
        ),
        (
            Agent::Serving,
            AgentInput::ServerDone(false),
            AgentFailure::Server,
            "diagnostics server failed",
            None,
        ),
    ];
    for (mut agent, input, failure, context, cause) in failures {
        assert!(agent.accepts(input));
        assert!(matches!(
            agent.advance(input),
            AgentAction::ExitErr(error) if error == failure
        ));
        assert_eq!(agent, Agent::Ended);
        assert_eq!(failure.context(), context);
        assert_eq!(failure.cause(), cause);
        assert!(!agent.accepts(input));
    }
}
