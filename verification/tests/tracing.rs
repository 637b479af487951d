use openhcl_reseal::mesh_layer::{
    event_timestamp, on_event, to_mesh_level, Level, MessageVisitor, SubscriberLevel, TraceRequest,
    Type,
};
use openhcl_reseal::tracing_setup::{
    init_tracing, init_tracing_backend, legacy_openvmm_env, notification,
    perf_trace_filter_variable, rate_limit_variable, trace_filter_variable, tracing_log_level,
    BackendAction, BackendInput, EnvLookup, GetTracingBackend, LogLevel, LogType, Output,
};

#[test]
fn levels_keep_their_severity() {
    let levels = [
        (SubscriberLevel::Trace, Level::Trace, LogLevel::Verbose),
        (SubscriberLevel::Debug, Level::Debug, LogLevel::Verbose),
        (SubscriberLevel::Info, Level::Info, LogLevel::Information),
        (SubscriberLevel::Warn, Level::Warn, LogLevel::Warning),
        (SubscriberLevel::Error, Level::Error, LogLevel::Error),
    ];
    for (subscriber, mesh, log) in levels {
        assert_eq!(to_mesh_level(subscriber), mesh);
        assert_eq!(tracing_log_level(mesh), log);
    }
}

#[test]
fn fields_are_spaced_and_messages_joined() {
    let mut visitor = MessageVisitor::new();
    visitor.record_str("message", "hello");
    visitor.record_str("a", "1");
    visitor.record_str("message", ", world");
    visitor.record_str("b", "");
    visitor.record_str("", "x");
    assert_eq!(visitor.message, "hello, world");
    assert_eq!(visitor.fields, "a=1 b= =x");
}

#[test]
fn an_event_becomes_a_request() {
    let mut visitor = MessageVisitor::new();
    visitor.record_str("message", "ready");
    visitor.record_str("port", "1");
    let request = on_event(visitor, SubscriberLevel::Warn, "agent::core", Some((2, 5)));
    assert_eq!(request.log_type, Type::Event);
    assert_eq!(request.level, Level::Warn);
    assert_eq!(request.timestamp, 2_000_000_005);
    assert_eq!(request.name, None);
    assert_eq!(request.target.unwrap(), b"agent::core");
    assert_eq!(request.fields.unwrap(), b"port=1");
    assert_eq!(request.message, b"ready");
    assert_eq!(request.activity_id, None);
    assert_eq!(request.related_activity_id, None);
    assert_eq!(request.correlation_id, None);

    let request = on_event(MessageVisitor::new(), SubscriberLevel::Info, "", None);
    assert_eq!(request.fields, None);
    assert_eq!(request.timestamp, 0);
    assert!(request.message.is_empty());
}

#[test]
fn timestamps_wrap() {
    let seconds = u64::MAX / 1_000_000_000;
    let nanos = u128::from(seconds + 1) * 1_000_000_000 + 7;
    assert_eq!(event_timestamp(Some((seconds + 1, 7))), nanos as u64);
    assert_eq!(event_timestamp(Some((1, 999_999_999))), 1_999_999_999);
    assert_eq!(event_timestamp(None), 0);
}

#[test]
fn variables_fall_back_to_their_legacy_names() {
    let fallback = |name: &str| match legacy_openvmm_env(name, None) {
        EnvLookup::TryLegacy(legacy) => legacy,
        EnvLookup::Found(_) => panic!("there is no value"),
    };
    assert_eq!(fallback(trace_filter_variable()), "HVLITE_LOG");
    assert_eq!(fallback(perf_trace_filter_variable()), "HVLITE_PERF_TRACE");
    assert_eq!(
        fallback(rate_limit_variable()),
        "HVLITE_DISABLE_TRACING_RATELIMITS"
    );
    assert_eq!(fallback("PATH"), "HVLITE_PATH");
    assert!(matches!(
        legacy_openvmm_env("OPENVMM_LOG", Some(String::new())),
        EnvLookup::Found(value) if value.is_empty()
    ));
}

#[test]
fn filters_have_defaults() {
    let filters = init_tracing_backend(None, None, true);
    assert_eq!(filters.trace_filter, "info");
    assert_eq!(filters.perf_trace_filter, "off");
    assert_eq!(filters.task, GetTracingBackend::Collecting);
    let filters = init_tracing_backend(Some("debug".to_string()), Some(String::new()), true);
    assert_eq!(filters.trace_filter, "debug");
    assert_eq!(filters.perf_trace_filter, "");
}

#[test]
fn without_a_channel_requests_are_dropped() {
    let start = init_tracing_backend(None, None, false);
    assert_eq!(start.trace_filter, "info");
    assert_eq!(start.perf_trace_filter, "off");
    for input in [
        BackendInput::Trace(request(Type::Event, "dropped")),
        BackendInput::Flush,
        BackendInput::Done,
        BackendInput::QueueEmpty,
        BackendInput::HostWaited,
    ] {
        assert!(!start.task.accepts(&input));
    }
}

#[test]
fn a_filtered_vm_emits_only_allowed_events() {
    for output in [Output::MeshWriter, Output::Kmsg] {
        let filtered = init_tracing(None, true);
        assert!(filtered.reaches(output, true));
        assert!(!filtered.reaches(output, false));
        let open = init_tracing(None, false);
        assert!(open.reaches(output, true));
        assert!(open.reaches(output, false));
    }
}

#[test]
fn rate_limits_are_disabled_by_a_value() {
    for (value, disabled) in [(None, false), (Some(""), false), (Some("0"), true)] {
        let plan = init_tracing(value.map(str::to_string), false);
        assert_eq!(plan.disable_rate_limits, disabled);
        assert!(!plan.confidential_filter);
    }
    assert!(init_tracing(None, true).confidential_filter);
}

fn request(log_type: Type, message: &str) -> TraceRequest {
    TraceRequest {
        log_type,
        timestamp: 17,
        level: Level::Error,
        name: Some(vec![1]),
        target: Some(vec![2]),
        fields: Some(vec![3]),
        activity_id: Some([4; 16]),
        related_activity_id: Some([5; 16]),
        correlation_id: Some([6; 16]),
        message: message.as_bytes().to_vec(),
    }
}

#[test]
fn a_request_becomes_a_notification() {
    let types = [
        (Type::Event, LogType::Event),
        (Type::SpanEnter, LogType::SpanEnter),
        (Type::SpanExit, LogType::SpanExit),
    ];
    for (log_type, reported) in types {
        let sent = notification(request(log_type, "m"));
        assert_eq!(sent.log_type, reported);
        assert_eq!(sent.level, LogLevel::Error);
        assert_eq!(sent.timestamp, 17);
        assert_eq!(sent.name, Some(vec![1]));
        assert_eq!(sent.target, Some(vec![2]));
        assert_eq!(sent.fields, Some(vec![3]));
        assert_eq!(sent.activity_id, Some([4; 16]));
        assert_eq!(sent.related_activity_id, Some([5; 16]));
        assert_eq!(sent.correlation_id, Some([6; 16]));
        assert_eq!(sent.message, b"m");
    }
}

/// A word for each action.
fn play(inputs: Vec<BackendInput>) -> (Vec<String>, GetTracingBackend) {
    let mut backend = GetTracingBackend::Collecting;
    let mut actions = Vec::new();
    for input in inputs {
        assert!(backend.accepts(&input));
        actions.push(match backend.run(input) {
            BackendAction::Send(sent) => String::from_utf8(sent.message).unwrap(),
            BackendAction::Poll => "poll".to_string(),
            BackendAction::WaitForHost => "wait".to_string(),
            BackendAction::CompleteFlush => "flushed".to_string(),
            BackendAction::Stop => "stop".to_string(),
        });
    }
    (actions, backend)
}

#[test]
fn a_flush_drains_waits_and_goes_on() {
    let trace = |message| BackendInput::Trace(request(Type::Event, message));
    let (actions, backend) = play(vec![
        trace("1"),
        BackendInput::Flush,
        trace("2"),
        trace("3"),
        BackendInput::QueueEmpty,
        BackendInput::HostWaited,
        trace("4"),
        BackendInput::Done,
        trace("5"),
        BackendInput::QueueEmpty,
        BackendInput::HostWaited,
    ]);
    assert_eq!(
        actions,
        ["1", "poll", "2", "3", "wait", "flushed", "4", "poll", "5", "wait", "stop"]
    );
    assert_eq!(backend, GetTracingBackend::Stopped);
}

#[test]
fn inputs_belong_to_their_states() {
    let states = [
        GetTracingBackend::Collecting,
        GetTracingBackend::Draining { flush: true },
        GetTracingBackend::Settling { flush: false },
        GetTracingBackend::Stopped,
    ];
    let accepted = |input: BackendInput| states.map(|state| state.accepts(&input));
    assert_eq!(
        accepted(BackendInput::Trace(request(Type::Event, ""))),
        [true, true, false, false]
    );
    assert_eq!(accepted(BackendInput::Flush), [true, false, false, false]);
    assert_eq!(accepted(BackendInput::Done), [true, false, false, false]);
    assert_eq!(
        accepted(BackendInput::QueueEmpty),
        [false, true, false, false]
    );
    assert_eq!(
        accepted(BackendInput::HostWaited),
        [false, false, true, false]
    );
}
