use openhcl_reseal::hresult::{E_FAIL, RPC_E_TOO_LATE};
use openhcl_reseal::wmi::{
    array_length, CorimPhase, CorimSession, CorimStep, WmiCall, WmiCallKind, WmiError, WmiObject,
    WmiReply,
};

fn reply() -> WmiReply {
    WmiReply {
        returned: 1,
        object_present: true,
        text: String::new(),
        number: 0,
        bytes: None,
    }
}

fn text(text: &str) -> WmiReply {
    WmiReply {
        text: text.to_string(),
        ..reply()
    }
}

/// What a host with the VM `vm` answers.
fn host(phase: CorimPhase) -> WmiReply {
    match phase {
        CorimPhase::VmPath => text("vm-path"),
        CorimPhase::SettingsPath => text("settings-path"),
        CorimPhase::EmbedSecurity => text("<INSTANCE/>"),
        CorimPhase::ServiceClassName => text("Msvm_SecurityService"),
        CorimPhase::ServicePath => text("service-path"),
        CorimPhase::Endorsement => WmiReply {
            bytes: Some(vec![0xd9, 1, 2]),
            ..reply()
        },
        _ => reply(),
    }
}

/// Holds the whole conversation, where `override_at` may answer in place of
/// the host, and returns the calls and the outcome.
fn converse(
    override_at: impl Fn(CorimPhase) -> Option<Result<WmiReply, WmiError>>,
) -> (Vec<(CorimPhase, WmiCall)>, Result<Vec<u8>, WmiError>) {
    let (mut session, mut call) = CorimSession::new("vm");
    let mut calls = Vec::new();
    loop {
        let phase = session.phase;
        calls.push((phase, call));
        let outcome = override_at(phase).unwrap_or_else(|| Ok(host(phase)));
        match session.advance(outcome) {
            CorimStep::Call(next, next_call) => {
                session = next;
                call = next_call;
            }
            CorimStep::Finished(result) => return (calls, result),
        }
    }
}

fn failing(at: CorimPhase, outcome: Result<WmiReply, WmiError>) -> (i32, String) {
    let outcome = std::cell::Cell::new(Some(outcome));
    let (calls, result) = converse(|phase| {
        if phase == at {
            outcome.take()
        } else {
            None
        }
    });
    assert_eq!(calls.last().unwrap().0, at);
    let error = result.unwrap_err();
    (error.code, error.message)
}

fn call_at(calls: &[(CorimPhase, WmiCall)], at: CorimPhase) -> &WmiCall {
    &calls.iter().find(|(phase, _)| *phase == at).unwrap().1
}

#[test]
fn a_full_conversation_reads_the_endorsement() {
    let (calls, result) = converse(|_| None);
    assert_eq!(result.unwrap(), [0xd9, 1, 2]);
    assert_eq!(calls.len(), 25);
    let kinds: Vec<_> = calls.iter().map(|(_, call)| call.kind).collect();
    assert_eq!(
        kinds,
        [
            WmiCallKind::InitializeCom,
            WmiCallKind::InitializeSecurity,
            WmiCallKind::CreateLocator,
            WmiCallKind::Connect,
            WmiCallKind::Query,
            WmiCallKind::Next,
            WmiCallKind::Query,
            WmiCallKind::Next,
            WmiCallKind::GetString,
            WmiCallKind::Query,
            WmiCallKind::Next,
            WmiCallKind::GetString,
            WmiCallKind::Query,
            WmiCallKind::Next,
            WmiCallKind::CreateTextSource,
            WmiCallKind::GetText,
            WmiCallKind::GetString,
            WmiCallKind::GetClass,
            WmiCallKind::GetMethod,
            WmiCallKind::SpawnInstance,
            WmiCallKind::Put,
            WmiCallKind::GetString,
            WmiCallKind::ExecMethod,
            WmiCallKind::GetNumber,
            WmiCallKind::GetBytes,
        ]
    );
}

#[test]
fn each_call_carries_its_words() {
    let (calls, _) = converse(|_| None);
    let expected = [
        (CorimPhase::Connect, "root\\virtualization\\v2", ""),
        (
            CorimPhase::QueryVm,
            "SELECT * FROM Msvm_ComputerSystem WHERE ElementName = 'vm'",
            "",
        ),
        (
            CorimPhase::QueryService,
            "SELECT * FROM Msvm_SecurityService",
            "",
        ),
        (CorimPhase::VmPath, "__PATH", ""),
        (
            CorimPhase::QuerySettings,
            "ASSOCIATORS OF {vm-path} WHERE ResultClass = Msvm_VirtualSystemSettingData",
            "",
        ),
        (CorimPhase::SettingsPath, "__PATH", ""),
        (
            CorimPhase::QuerySecurity,
            "ASSOCIATORS OF {settings-path} WHERE ResultClass = Msvm_SecuritySettingData",
            "",
        ),
        (CorimPhase::ServiceClassName, "__CLASS", ""),
        (CorimPhase::GetServiceClass, "Msvm_SecurityService", ""),
        (CorimPhase::GetMethod, "GetCorimEndorsement", ""),
        (
            CorimPhase::PutParameter,
            "SecuritySettingData",
            "<INSTANCE/>",
        ),
        (CorimPhase::ServicePath, "__PATH", ""),
        (CorimPhase::Invoke, "service-path", "GetCorimEndorsement"),
        (CorimPhase::ReturnValue, "ReturnValue", ""),
        (CorimPhase::Endorsement, "CorimEndorsement", ""),
    ];
    for (phase, text, value) in expected {
        let call = call_at(&calls, phase);
        assert_eq!((call.text.as_str(), call.value.as_str()), (text, value));
    }
    let objects = [
        (CorimPhase::VmPath, WmiObject::Vm),
        (CorimPhase::SettingsPath, WmiObject::Settings),
        (CorimPhase::EmbedSecurity, WmiObject::SecuritySettings),
        (CorimPhase::ServicePath, WmiObject::SecurityService),
        (CorimPhase::PutParameter, WmiObject::Parameters),
        (CorimPhase::Endorsement, WmiObject::Output),
    ];
    for (phase, object) in objects {
        assert_eq!(call_at(&calls, phase).object, object);
    }
}

#[test]
fn security_that_was_initialized_before_is_tolerated() {
    let too_late = |code| {
        Err(WmiError {
            code,
            message: "security".to_string(),
        })
    };
    let (calls, result) = converse(|phase| {
        (phase == CorimPhase::InitializeSecurity).then(|| too_late(RPC_E_TOO_LATE))
    });
    assert_eq!(calls.len(), 25);
    assert!(result.is_ok());
    assert_eq!(
        failing(CorimPhase::InitializeSecurity, too_late(E_FAIL)),
        (E_FAIL, "security".to_string())
    );
    assert_eq!(
        failing(CorimPhase::CreateLocator, too_late(RPC_E_TOO_LATE)),
        (RPC_E_TOO_LATE, "security".to_string())
    );
}

#[test]
fn a_failed_call_ends_the_conversation_with_its_error() {
    let (calls, _) = converse(|_| None);
    for (at, _) in calls {
        let error = Err(WmiError {
            code: E_FAIL,
            message: format!("{at:?}"),
        });
        assert_eq!(failing(at, error), (E_FAIL, format!("{at:?}")));
    }
}

#[test]
fn what_is_not_there_is_named() {
    let nothing = || {
        Ok(WmiReply {
            returned: 0,
            object_present: false,
            ..reply()
        })
    };
    let expected = [
        (
            CorimPhase::NextVm,
            "VM 'vm' not found in Msvm_ComputerSystem",
        ),
        (CorimPhase::NextService, "Msvm_SecurityService not found"),
        (
            CorimPhase::NextSettings,
            "Msvm_VirtualSystemSettingData not found",
        ),
        (
            CorimPhase::NextSecurity,
            "Msvm_SecuritySettingData not found",
        ),
        (CorimPhase::VmPath, "property '__PATH' is not a string"),
        (
            CorimPhase::SettingsPath,
            "property '__PATH' is not a string",
        ),
        (
            CorimPhase::ServiceClassName,
            "property '__CLASS' is not a string",
        ),
        (
            CorimPhase::GetServiceClass,
            "Failed to get Msvm_SecurityService class",
        ),
        (
            CorimPhase::GetMethod,
            "GetCorimEndorsement has no input parameters",
        ),
        (
            CorimPhase::Invoke,
            "No output returned from GetCorimEndorsement",
        ),
    ];
    for (at, message) in expected {
        assert_eq!(failing(at, nothing()), (-1, message.to_string()));
    }
    // An object that was counted but did not come is not there either.
    let absent = WmiReply {
        object_present: false,
        ..reply()
    };
    assert_eq!(failing(CorimPhase::NextService, Ok(absent)).0, -1);
}

#[test]
fn a_nonzero_return_value_is_an_error() {
    let returned = |number| {
        Ok(WmiReply {
            number,
            ..reply()
        })
    };
    assert_eq!(
        failing(CorimPhase::ReturnValue, returned(32773)),
        (
            32773,
            "GetCorimEndorsement failed with return value 32773".to_string()
        )
    );
    assert_eq!(
        failing(CorimPhase::ReturnValue, returned(-2)),
        (
            -2,
            "GetCorimEndorsement failed with return value 4294967294".to_string()
        )
    );
}

#[test]
fn no_array_is_an_empty_endorsement() {
    let (_, result) = converse(|phase| (phase == CorimPhase::Endorsement).then(|| Ok(reply())));
    assert!(result.unwrap().is_empty());
}

#[test]
fn array_bounds_give_a_length() {
    assert_eq!(array_length(0, 9), 10);
    assert_eq!(array_length(0, -1), 0);
    assert_eq!(array_length(-3, 3), 7);
}
