//! The conversation with the host's WMI service that retrieves the CoRIM
//! endorsement of a VM.
//!
//! A [`CorimSession`] names the next call to make and reads its outcome. It is
//! the equivalent of looking the VM up by its display name, walking from it to
//! its settings and on to its security settings, and invoking
//! `Msvm_SecurityService.GetCorimEndorsement` with the latter.

use crate::hresult::{HRESULT, RPC_E_TOO_LATE};
use crate::text::{decimal, decimal_chars, join3};
use vstd::prelude::*;

verus! {

/// The code of an error for something that is not there.
pub const MISSING: HRESULT = -1;

/// A failed COM call, or a failure found in what it returned.
#[derive(Debug)]
pub struct WmiError {
    pub code: HRESULT,
    pub message: String,
}

/// A step of the conversation, named after the call it waits for.
#[derive(Clone, Copy, Debug, PartialEq, Eq, Structural)]
pub enum CorimPhase {
    InitializeCom,
    InitializeSecurity,
    CreateLocator,
    Connect,
    QueryVm,
    NextVm,
    QueryService,
    NextService,
    VmPath,
    QuerySettings,
    NextSettings,
    SettingsPath,
    QuerySecurity,
    NextSecurity,
    CreateTextSource,
    EmbedSecurity,
    ServiceClassName,
    GetServiceClass,
    GetMethod,
    SpawnParameters,
    PutParameter,
    ServicePath,
    Invoke,
    ReturnValue,
    Endorsement,
}

/// The kind of a call.
#[derive(Clone, Copy, Debug, PartialEq, Eq, Structural)]
pub enum WmiCallKind {
    /// Initialize COM for this thread.
    InitializeCom,
    /// Initialize the COM security of the process.
    InitializeSecurity,
    /// Create the WMI locator.
    CreateLocator,
    /// Connect to the namespace `text`.
    Connect,
    /// Run the WQL query `text`; its results are the candidates for `object`.
    Query,
    /// Fetch the next result of the query for `object`.
    Next,
    /// Read the string property `text` of `object`.
    GetString,
    /// Create the source of CIM-XML text.
    CreateTextSource,
    /// Write `object` as CIM-XML text of DTD version 2.0.
    GetText,
    /// Get the class `text`.
    GetClass,
    /// Get the input parameters of the method `text` of the service class.
    GetMethod,
    /// Spawn an instance of the input parameters.
    SpawnInstance,
    /// Set the property `text` of `object` to `value`.
    Put,
    /// Run the method `value` of the object with the path `text`.
    ExecMethod,
    /// Read the 32-bit property `text` of `object`.
    GetNumber,
    /// Read the byte array property `text` of `object`.
    GetBytes,
}

/// The objects of the conversation.
#[derive(Clone, Copy, Debug, PartialEq, Eq, Structural)]
pub enum WmiObject {
    /// No object in particular.
    Nothing,
    Vm,
    SecurityService,
    Settings,
    SecuritySettings,
    ServiceClass,
    MethodParameters,
    Parameters,
    Output,
}

/// A call to make.
#[derive(Debug)]
pub struct WmiCall {
    pub kind: WmiCallKind,
    pub object: WmiObject,
    pub text: String,
    pub value: String,
}

/// What a call returned. A call fills what belongs to it and leaves the rest.
#[derive(Debug)]
pub struct WmiReply {
    /// How many objects an enumeration returned.
    pub returned: u32,
    /// Whether an object came back.
    pub object_present: bool,
    /// The text that came back.
    pub text: String,
    /// The number that came back.
    pub number: i32,
    /// The bytes that came back, if there is an array at all.
    pub bytes: Option<Vec<u8>>,
}

/// The conversation, waiting for the outcome of the call of its phase.
#[derive(Debug)]
pub struct CorimSession {
    pub phase: CorimPhase,
    pub vm_name: String,
    /// The security settings of the VM as CIM-XML, once they are known.
    pub embedded: String,
}

/// What follows an outcome.
#[derive(Debug)]
pub enum CorimStep {
    /// Make this call.
    Call(CorimSession, WmiCall),
    /// The conversation is over.
    Finished(Result<Vec<u8>, WmiError>),
}

/// The phase after `phase`, or none after the last.
pub open spec fn successor(phase: CorimPhase) -> Option<CorimPhase> {
    match phase {
        CorimPhase::InitializeCom => Some(CorimPhase::InitializeSecurity),
        CorimPhase::InitializeSecurity => Some(CorimPhase::CreateLocator),
        CorimPhase::CreateLocator => Some(CorimPhase::Connect),
        CorimPhase::Connect => Some(CorimPhase::QueryVm),
        CorimPhase::QueryVm => Some(CorimPhase::NextVm),
        CorimPhase::NextVm => Some(CorimPhase::QueryService),
        CorimPhase::QueryService => Some(CorimPhase::NextService),
        CorimPhase::NextService => Some(CorimPhase::VmPath),
        CorimPhase::VmPath => Some(CorimPhase::QuerySettings),
        CorimPhase::QuerySettings => Some(CorimPhase::NextSettings),
        CorimPhase::NextSettings => Some(CorimPhase::SettingsPath),
        CorimPhase::SettingsPath => Some(CorimPhase::QuerySecurity),
        CorimPhase::QuerySecurity => Some(CorimPhase::NextSecurity),
        CorimPhase::NextSecurity => Some(CorimPhase::CreateTextSource),
        CorimPhase::CreateTextSource => Some(CorimPhase::EmbedSecurity),
        CorimPhase::EmbedSecurity => Some(CorimPhase::ServiceClassName),
        CorimPhase::ServiceClassName => Some(CorimPhase::GetServiceClass),
        CorimPhase::GetServiceClass => Some(CorimPhase::GetMethod),
        CorimPhase::GetMethod => Some(CorimPhase::SpawnParameters),
        CorimPhase::SpawnParameters => Some(CorimPhase::PutParameter),
        CorimPhase::PutParameter => Some(CorimPhase::ServicePath),
        CorimPhase::ServicePath => Some(CorimPhase::Invoke),
        CorimPhase::Invoke => Some(CorimPhase::ReturnValue),
        CorimPhase::ReturnValue => Some(CorimPhase::Endorsement),
        CorimPhase::Endorsement => None,
    }
}

/// The kind of the call of a phase.
pub open spec fn call_kind(phase: CorimPhase) -> WmiCallKind {
    match phase {
        CorimPhase::InitializeCom => WmiCallKind::InitializeCom,
        CorimPhase::InitializeSecurity => WmiCallKind::InitializeSecurity,
        CorimPhase::CreateLocator => WmiCallKind::CreateLocator,
        CorimPhase::Connect => WmiCallKind::Connect,
        CorimPhase::QueryVm | CorimPhase::QueryService | CorimPhase::QuerySettings
        | CorimPhase::QuerySecurity => WmiCallKind::Query,
        CorimPhase::NextVm | CorimPhase::NextService | CorimPhase::NextSettings
        | CorimPhase::NextSecurity => WmiCallKind::Next,
        CorimPhase::VmPath | CorimPhase::SettingsPath | CorimPhase::ServiceClassName
        | CorimPhase::ServicePath => WmiCallKind::GetString,
        CorimPhase::CreateTextSource => WmiCallKind::CreateTextSource,
        CorimPhase::EmbedSecurity => WmiCallKind::GetText,
        CorimPhase::GetServiceClass => WmiCallKind::GetClass,
        CorimPhase::GetMethod => WmiCallKind::GetMethod,
        CorimPhase::SpawnParameters => WmiCallKind::SpawnInstance,
        CorimPhase::PutParameter => WmiCallKind::Put,
        CorimPhase::Invoke => WmiCallKind::ExecMethod,
        CorimPhase::ReturnValue => WmiCallKind::GetNumber,
        CorimPhase::Endorsement => WmiCallKind::GetBytes,
    }
}

/// The object that the call of a phase is about: the one it reads, or the one
/// it brings in.
pub open spec fn call_object(phase: CorimPhase) -> WmiObject {
    match phase {
        CorimPhase::QueryVm | CorimPhase::NextVm | CorimPhase::VmPath => WmiObject::Vm,
        CorimPhase::QueryService | CorimPhase::NextService | CorimPhase::ServiceClassName
        | CorimPhase::ServicePath => WmiObject::SecurityService,
        CorimPhase::QuerySettings | CorimPhase::NextSettings | CorimPhase::SettingsPath =>
            WmiObject::Settings,
        CorimPhase::QuerySecurity | CorimPhase::NextSecurity | CorimPhase::EmbedSecurity =>
            WmiObject::SecuritySettings,
        CorimPhase::GetServiceClass => WmiObject::ServiceClass,
        CorimPhase::GetMethod => WmiObject::MethodParameters,
        CorimPhase::SpawnParameters | CorimPhase::PutParameter => WmiObject::Parameters,
        CorimPhase::Invoke | CorimPhase::ReturnValue | CorimPhase::Endorsement => WmiObject::Output,
        CorimPhase::InitializeCom | CorimPhase::InitializeSecurity | CorimPhase::CreateLocator
        | CorimPhase::Connect | CorimPhase::CreateTextSource => WmiObject::Nothing,
    }
}

/// The text of the call of a phase, where `last` is the text that the call
/// before it returned.
pub open spec fn call_text(phase: CorimPhase, vm_name: Seq<char>, last: Seq<char>) -> Seq<char> {
    match phase {
        CorimPhase::Connect => "root\\virtualization\\v2"@,
        CorimPhase::QueryVm => "SELECT * FROM Msvm_ComputerSystem WHERE ElementName = '"@ + vm_name
            + "'"@,
        CorimPhase::QueryService => "SELECT * FROM Msvm_SecurityService"@,
        CorimPhase::VmPath | CorimPhase::SettingsPath | CorimPhase::ServicePath => "__PATH"@,
        CorimPhase::QuerySettings => "ASSOCIATORS OF {"@ + last
            + "} WHERE ResultClass = Msvm_VirtualSystemSettingData"@,
        CorimPhase::QuerySecurity => "ASSOCIATORS OF {"@ + last
            + "} WHERE ResultClass = Msvm_SecuritySettingData"@,
        CorimPhase::ServiceClassName => "__CLASS"@,
        CorimPhase::GetServiceClass => last,
        CorimPhase::GetMethod => "GetCorimEndorsement"@,
        CorimPhase::PutParameter => "SecuritySettingData"@,
        CorimPhase::Invoke => last,
        CorimPhase::ReturnValue => "ReturnValue"@,
        CorimPhase::Endorsement => "CorimEndorsement"@,
        _ => Seq::empty(),
    }
}

/// The value of the call of a phase.
pub open spec fn call_value(phase: CorimPhase, embedded: Seq<char>) -> Seq<char> {
    match phase {
        CorimPhase::PutParameter => embedded,
        CorimPhase::Invoke => "GetCorimEndorsement"@,
        _ => Seq::empty(),
    }
}

/// Whether `call` is the call of `phase`.
pub open spec fn is_call_of(
    call: WmiCall,
    phase: CorimPhase,
    vm_name: Seq<char>,
    last: Seq<char>,
    embedded: Seq<char>,
) -> bool {
    &&& call.kind == call_kind(phase)
    &&& call.object == call_object(phase)
    &&& call.text@ == call_text(phase, vm_name, last)
    &&& call.value@ == call_value(phase, embedded)
}

/// Whether a call that returned leaves its phase without what it is for.
pub open spec fn reply_lacks(phase: CorimPhase, reply: WmiReply) -> bool {
    match call_kind(phase) {
        WmiCallKind::Next => reply.returned == 0 || !reply.object_present,
        WmiCallKind::GetString => reply.text@.len() == 0,
        WmiCallKind::GetClass | WmiCallKind::GetMethod | WmiCallKind::ExecMethod =>
            !reply.object_present,
        WmiCallKind::GetNumber => reply.number != 0,
        _ => false,
    }
}

/// The number that a 32-bit property holds, unsigned.
pub open spec fn unsigned(number: i32) -> nat {
    if number < 0 {
        (number + 0x1_0000_0000) as nat
    } else {
        number as nat
    }
}

/// The code of the error that such a reply becomes.
pub open spec fn lacking_code(phase: CorimPhase, reply: WmiReply) -> HRESULT {
    if phase == CorimPhase::ReturnValue {
        reply.number
    } else {
        MISSING
    }
}

/// The message of the error that such a reply becomes.
pub open spec fn lacking_message(phase: CorimPhase, vm_name: Seq<char>, reply: WmiReply) -> Seq<
    char,
> {
    match phase {
        CorimPhase::NextVm => "VM '"@ + vm_name + "' not found in Msvm_ComputerSystem"@,
        CorimPhase::NextService => "Msvm_SecurityService not found"@,
        CorimPhase::NextSettings => "Msvm_VirtualSystemSettingData not found"@,
        CorimPhase::NextSecurity => "Msvm_SecuritySettingData not found"@,
        CorimPhase::VmPath | CorimPhase::SettingsPath | CorimPhase::ServicePath =>
            "property '"@ + "__PATH"@ + "' is not a string"@,
        CorimPhase::ServiceClassName => "property '"@ + "__CLASS"@ + "' is not a string"@,
        CorimPhase::GetServiceClass => "Failed to get Msvm_SecurityService class"@,
        CorimPhase::GetMethod => "GetCorimEndorsement has no input parameters"@,
        CorimPhase::Invoke => "No output returned from GetCorimEndorsement"@,
        CorimPhase::ReturnValue => "GetCorimEndorsement failed with return value "@
            + decimal_chars(unsigned(reply.number)),
        _ => Seq::empty(),
    }
}

/// Whether the conversation goes on although the call failed: the security of
/// the process can only be initialized once, and may have been.
pub open spec fn tolerates(phase: CorimPhase, error: WmiError) -> bool {
    phase == CorimPhase::InitializeSecurity && error.code == RPC_E_TOO_LATE
}

/// The text that the next call may refer to.
pub open spec fn replied_text(outcome: Result<WmiReply, WmiError>) -> Seq<char> {
    match outcome {
        Ok(reply) => reply.text@,
        Err(_) => Seq::empty(),
    }
}

/// The CIM-XML that is known after an outcome.
pub open spec fn embedded_after(
    session: CorimSession,
    outcome: Result<WmiReply, WmiError>,
) -> Seq<char> {
    if session.phase == CorimPhase::EmbedSecurity {
        replied_text(outcome)
    } else {
        session.embedded@
    }
}

/// Whether `step` is what follows `outcome`.
pub open spec fn follows(
    session: CorimSession,
    outcome: Result<WmiReply, WmiError>,
    step: CorimStep,
) -> bool {
    match outcome {
        Err(error) if !tolerates(session.phase, error) => step == CorimStep::Finished(Err(error)),
        Ok(reply) if reply_lacks(session.phase, reply) => {
            &&& step matches CorimStep::Finished(Err(error))
            &&& error.code == lacking_code(session.phase, reply)
            &&& error.message@ == lacking_message(session.phase, session.vm_name@, reply)
        },
        _ => match successor(session.phase) {
            Some(phase) => {
                &&& step matches CorimStep::Call(next, call)
                &&& next.phase == phase
                &&& next.vm_name@ == session.vm_name@
                &&& next.embedded@ == embedded_after(session, outcome)
                &&& is_call_of(
                    call,
                    phase,
                    session.vm_name@,
                    replied_text(outcome),
                    embedded_after(session, outcome),
                )
            },
            None => {
                &&& step matches CorimStep::Finished(Ok(endorsement))
                &&& endorsement@ == (match outcome->Ok_0.bytes {
                    Some(bytes) => bytes@,
                    None => Seq::empty(),
                })
            },
        },
    }
}

fn next_phase(phase: CorimPhase) -> (next: Option<CorimPhase>)
    ensures
        next == successor(phase),
{
    match phase {
        CorimPhase::InitializeCom => Some(CorimPhase::InitializeSecurity),
        CorimPhase::InitializeSecurity => Some(CorimPhase::CreateLocator),
        CorimPhase::CreateLocator => Some(CorimPhase::Connect),
        CorimPhase::Connect => Some(CorimPhase::QueryVm),
        CorimPhase::QueryVm => Some(CorimPhase::NextVm),
        CorimPhase::NextVm => Some(CorimPhase::QueryService),
        CorimPhase::QueryService => Some(CorimPhase::NextService),
        CorimPhase::NextService => Some(CorimPhase::VmPath),
        CorimPhase::VmPath => Some(CorimPhase::QuerySettings),
        CorimPhase::QuerySettings => Some(CorimPhase::NextSettings),
        CorimPhase::NextSettings => Some(CorimPhase::SettingsPath),
        CorimPhase::SettingsPath => Some(CorimPhase::QuerySecurity),
        CorimPhase::QuerySecurity => Some(CorimPhase::NextSecurity),
        CorimPhase::NextSecurity => Some(CorimPhase::CreateTextSource),
        CorimPhase::CreateTextSource => Some(CorimPhase::EmbedSecurity),
        CorimPhase::EmbedSecurity => Some(CorimPhase::ServiceClassName),
        CorimPhase::ServiceClassName => Some(CorimPhase::GetServiceClass),
        CorimPhase::GetServiceClass => Some(CorimPhase::GetMethod),
        CorimPhase::GetMethod => Some(CorimPhase::SpawnParameters),
        CorimPhase::SpawnParameters => Some(CorimPhase::PutParameter),
        CorimPhase::PutParameter => Some(CorimPhase::ServicePath),
        CorimPhase::ServicePath => Some(CorimPhase::Invoke),
        CorimPhase::Invoke => Some(CorimPhase::ReturnValue),
        CorimPhase::ReturnValue => Some(CorimPhase::Endorsement),
        CorimPhase::Endorsement => None,
    }
}

fn kind_of(phase: CorimPhase) -> (kind: WmiCallKind)
    ensures
        kind == call_kind(phase),
{
    match phase {
        CorimPhase::InitializeCom => WmiCallKind::InitializeCom,
        CorimPhase::InitializeSecurity => WmiCallKind::InitializeSecurity,
        CorimPhase::CreateLocator => WmiCallKind::CreateLocator,
        CorimPhase::Connect => WmiCallKind::Connect,
        CorimPhase::QueryVm | CorimPhase::QueryService | CorimPhase::QuerySettings
        | CorimPhase::QuerySecurity => WmiCallKind::Query,
        CorimPhase::NextVm | CorimPhase::NextService | CorimPhase::NextSettings
        | CorimPhase::NextSecurity => WmiCallKind::Next,
        CorimPhase::VmPath | CorimPhase::SettingsPath | CorimPhase::ServiceClassName
        | CorimPhase::ServicePath => WmiCallKind::GetString,
        CorimPhase::CreateTextSource => WmiCallKind::CreateTextSource,
        CorimPhase::EmbedSecurity => WmiCallKind::GetText,
        CorimPhase::GetServiceClass => WmiCallKind::GetClass,
        CorimPhase::GetMethod => WmiCallKind::GetMethod,
        CorimPhase::SpawnParameters => WmiCallKind::SpawnInstance,
        CorimPhase::PutParameter => WmiCallKind::Put,
        CorimPhase::Invoke => WmiCallKind::ExecMethod,
        CorimPhase::ReturnValue => WmiCallKind::GetNumber,
        CorimPhase::Endorsement => WmiCallKind::GetBytes,
    }
}

fn object_of(phase: CorimPhase) -> (object: WmiObject)
    ensures
        object == call_object(phase),
{
    match phase {
        CorimPhase::QueryVm | CorimPhase::NextVm | CorimPhase::VmPath => WmiObject::Vm,
        CorimPhase::QueryService | CorimPhase::NextService | CorimPhase::ServiceClassName
        | CorimPhase::ServicePath => WmiObject::SecurityService,
        CorimPhase::QuerySettings | CorimPhase::NextSettings | CorimPhase::SettingsPath =>
            WmiObject::Settings,
        CorimPhase::QuerySecurity | CorimPhase::NextSecurity | CorimPhase::EmbedSecurity =>
            WmiObject::SecuritySettings,
        CorimPhase::GetServiceClass => WmiObject::ServiceClass,
        CorimPhase::GetMethod => WmiObject::MethodParameters,
        CorimPhase::SpawnParameters | CorimPhase::PutParameter => WmiObject::Parameters,
        CorimPhase::Invoke | CorimPhase::ReturnValue | CorimPhase::Endorsement => WmiObject::Output,
        CorimPhase::InitializeCom | CorimPhase::InitializeSecurity | CorimPhase::CreateLocator
        | CorimPhase::Connect | CorimPhase::CreateTextSource => WmiObject::Nothing,
    }
}

fn text_of(phase: CorimPhase, vm_name: &str, last: &str) -> (text: String)
    ensures
        text@ == call_text(phase, vm_name@, last@),
{
    match phase {
        CorimPhase::Connect => "root\\virtualization\\v2".to_owned(),
        CorimPhase::QueryVm => join3(
            "SELECT * FROM Msvm_ComputerSystem WHERE ElementName = '",
            vm_name,
            "'",
        ),
        CorimPhase::QueryService => "SELECT * FROM Msvm_SecurityService".to_owned(),
        CorimPhase::VmPath | CorimPhase::SettingsPath | CorimPhase::ServicePath =>
            "__PATH".to_owned(),
        CorimPhase::QuerySettings => join3(
            "ASSOCIATORS OF {",
            last,
            "} WHERE ResultClass = Msvm_VirtualSystemSettingData",
        ),
        CorimPhase::QuerySecurity => join3(
            "ASSOCIATORS OF {",
            last,
            "} WHERE ResultClass = Msvm_SecuritySettingData",
        ),
        CorimPhase::ServiceClassName => "__CLASS".to_owned(),
        CorimPhase::GetServiceClass => last.to_owned(),
        CorimPhase::GetMethod => "GetCorimEndorsement".to_owned(),
        CorimPhase::PutParameter => "SecuritySettingData".to_owned(),
        CorimPhase::Invoke => last.to_owned(),
        CorimPhase::ReturnValue => "ReturnValue".to_owned(),
        CorimPhase::Endorsement => "CorimEndorsement".to_owned(),
        _ => String::new(),
    }
}

fn value_of(phase: CorimPhase, embedded: &str) -> (value: String)
    ensures
        value@ == call_value(phase, embedded@),
{
    match phase {
        CorimPhase::PutParameter => embedded.to_owned(),
        CorimPhase::Invoke => "GetCorimEndorsement".to_owned(),
        _ => String::new(),
    }
}

fn lacks(phase: CorimPhase, reply: &WmiReply) -> (lacking: bool)
    ensures
        lacking == reply_lacks(phase, *reply),
{
    match kind_of(phase) {
        WmiCallKind::Next => reply.returned == 0 || !reply.object_present,
        WmiCallKind::GetString => reply.text.as_str().is_empty(),
        WmiCallKind::GetClass | WmiCallKind::GetMethod | WmiCallKind::ExecMethod =>
            !reply.object_present,
        WmiCallKind::GetNumber => reply.number != 0,
        _ => false,
    }
}

fn lacking_error(phase: CorimPhase, vm_name: &str, reply: &WmiReply) -> (error: WmiError)
    ensures
        error.code == lacking_code(phase, *reply),
        error.message@ == lacking_message(phase, vm_name@, *reply),
{
    let message = match phase {
        CorimPhase::NextVm => join3("VM '", vm_name, "' not found in Msvm_ComputerSystem"),
        CorimPhase::NextService => "Msvm_SecurityService not found".to_owned(),
        CorimPhase::NextSettings => "Msvm_VirtualSystemSettingData not found".to_owned(),
        CorimPhase::NextSecurity => "Msvm_SecuritySettingData not found".to_owned(),
        CorimPhase::VmPath | CorimPhase::SettingsPath | CorimPhase::ServicePath => join3(
            "property '",
            "__PATH",
            "' is not a string",
        ),
        CorimPhase::ServiceClassName => join3("property '", "__CLASS", "' is not a string"),
        CorimPhase::GetServiceClass => "Failed to get Msvm_SecurityService class".to_owned(),
        CorimPhase::GetMethod => "GetCorimEndorsement has no input parameters".to_owned(),
        CorimPhase::Invoke => "No output returned from GetCorimEndorsement".to_owned(),
        CorimPhase::ReturnValue => {
            let number: i32 = reply.number;
            let value: u32 = number as u32;
            assert(number >= 0 ==> value == number);
            assert(number < 0 ==> value == number + 0x1_0000_0000) by (bit_vector)
                requires
                    value == number as u32,
            ;
            let mut message = "GetCorimEndorsement failed with return value ".to_owned();
            message.append(decimal(value).as_str());
            message
        },
        _ => String::new(),
    };
    let code: HRESULT = if phase == CorimPhase::ReturnValue {
        reply.number
    } else {
        MISSING
    };
    WmiError { code, message }
}

/// The length of a byte array whose index runs from `lower` to `upper`.
pub fn array_length(lower: i32, upper: i32) -> (len: usize)
    requires
        0 <= upper - lower + 1 <= i32::MAX,
    ensures
        len == upper - lower + 1,
{
    (upper - lower + 1) as usize
}

impl CorimSession {
    /// Starts the conversation about the VM with this display name.
    pub fn new(vm_name: &str) -> (begun: (CorimSession, WmiCall))
        ensures
            begun.0.phase == CorimPhase::InitializeCom,
            begun.0.vm_name@ == vm_name@,
            begun.0.embedded@ == Seq::<char>::empty(),
            is_call_of(
                begun.1,
                CorimPhase::InitializeCom,
                vm_name@,
                Seq::empty(),
                Seq::empty(),
            ),
    {
        (
            CorimSession {
                phase: CorimPhase::InitializeCom,
                vm_name: vm_name.to_owned(),
                embedded: String::new(),
            },
            WmiCall {
                kind: WmiCallKind::InitializeCom,
                object: WmiObject::Nothing,
                text: String::new(),
                value: String::new(),
            },
        )
    }

    /// Goes on when the call of the phase has ended.
    pub fn advance(self, outcome: Result<WmiReply, WmiError>) -> (step: CorimStep)
        ensures
            follows(self, outcome, step),
    {
        let phase = self.phase;
        let reply = match outcome {
            Ok(reply) => reply,
            Err(error) => {
                if phase != CorimPhase::InitializeSecurity || error.code != RPC_E_TOO_LATE {
                    return CorimStep::Finished(Err(error));
                }
                WmiReply {
                    returned: 0,
                    object_present: false,
                    text: String::new(),
                    number: 0,
                    bytes: None,
                }
            },
        };
        if lacks(phase, &reply) {
            return CorimStep::Finished(
                Err(lacking_error(phase, self.vm_name.as_str(), &reply)),
            );
        }
        match next_phase(phase) {
            None => {
                let endorsement = match reply.bytes {
                    Some(bytes) => bytes,
                    None => Vec::new(),
                };
                assert(reply.bytes is None ==> endorsement@ =~= Seq::empty());
                CorimStep::Finished(Ok(endorsement))
            },
            Some(next) => {
                let text = text_of(next, self.vm_name.as_str(), reply.text.as_str());
                let embedded = if phase == CorimPhase::EmbedSecurity {
                    reply.text
                } else {
                    self.embedded
                };
                let value = value_of(next, embedded.as_str());
                let call = WmiCall { kind: kind_of(next), object: object_of(next), text, value };
                CorimStep::Call(
                    CorimSession { phase: next, vm_name: self.vm_name, embedded },
                    call,
                )
            },
        }
    }
}

/// How many phases come after `phase`.
pub open spec fn phases_left(phase: CorimPhase) -> nat {
    match phase {
        CorimPhase::InitializeCom => 24,
        CorimPhase::InitializeSecurity => 23,
        CorimPhase::CreateLocator => 22,
        CorimPhase::Connect => 21,
        CorimPhase::QueryVm => 20,
        CorimPhase::NextVm => 19,
        CorimPhase::QueryService => 18,
        CorimPhase::NextService => 17,
        CorimPhase::VmPath => 16,
        CorimPhase::QuerySettings => 15,
        CorimPhase::NextSettings => 14,
        CorimPhase::SettingsPath => 13,
        CorimPhase::QuerySecurity => 12,
        CorimPhase::NextSecurity => 11,
        CorimPhase::CreateTextSource => 10,
        CorimPhase::EmbedSecurity => 9,
        CorimPhase::ServiceClassName => 8,
        CorimPhase::GetServiceClass => 7,
        CorimPhase::GetMethod => 6,
        CorimPhase::SpawnParameters => 5,
        CorimPhase::PutParameter => 4,
        CorimPhase::ServicePath => 3,
        CorimPhase::Invoke => 2,
        CorimPhase::ReturnValue => 1,
        CorimPhase::Endorsement => 0,
    }
}

/// Every step that does not end the conversation brings it nearer its end.
pub proof fn law_conversation_ends(
    session: CorimSession,
    outcome: Result<WmiReply, WmiError>,
    step: CorimStep,
)
    requires
        follows(session, outcome, step),
    ensures
        step matches CorimStep::Call(next, _) ==> phases_left(next.phase) + 1 == phases_left(
            session.phase,
        ),
        phases_left(session.phase) == 0 ==> step is Finished,
{
}

/// The endorsement is read only from a method that returned zero: from
/// `ReturnValue` there is no way on but with that number.
pub proof fn law_endorsement_needs_zero_return_value(
    session: CorimSession,
    outcome: Result<WmiReply, WmiError>,
    step: CorimStep,
)
    requires
        follows(session, outcome, step),
    ensures
        step matches CorimStep::Finished(Ok(_)) ==> session.phase == CorimPhase::Endorsement,
        step matches CorimStep::Call(next, _) ==> next.phase == CorimPhase::Endorsement
            ==> session.phase == CorimPhase::ReturnValue && outcome is Ok && outcome->Ok_0.number
            == 0,
{
}

/// The CIM-XML that the method is given is the text that the security
/// settings were written as: it stays as it is from then on.
pub proof fn law_embedded_settings_reach_the_method(
    session: CorimSession,
    outcome: Result<WmiReply, WmiError>,
    step: CorimStep,
)
    requires
        follows(session, outcome, step),
    ensures
        step matches CorimStep::Call(next, _) ==> next.embedded@ == (if session.phase
            == CorimPhase::EmbedSecurity {
            outcome->Ok_0.text@
        } else {
            session.embedded@
        }),
        step matches CorimStep::Call(next, call) ==> next.phase == CorimPhase::PutParameter
            ==> call.value@ == next.embedded@,
{
}

/// Whether a conversation from `session` on can go through `outcomes` and take
/// `last` as its last step.
pub open spec fn converses(
    session: CorimSession,
    outcomes: Seq<Result<WmiReply, WmiError>>,
    last: CorimStep,
) -> bool
    decreases outcomes.len(),
{
    if outcomes.len() == 0 {
        false
    } else if outcomes.len() == 1 {
        follows(session, outcomes[0], last)
    } else {
        exists|next: CorimSession, call: WmiCall| #[trigger]
            follows(session, outcomes[0], CorimStep::Call(next, call)) && converses(
                next,
                outcomes.skip(1),
                last,
            )
    }
}

/// An endorsement comes out only when every call of the conversation was made
/// and none failed but for the security of the process being initialized
/// already, when the method returned zero, and it is what was then read.
pub proof fn law_endorsement_ends_a_full_conversation(
    session: CorimSession,
    outcomes: Seq<Result<WmiReply, WmiError>>,
    endorsement: Vec<u8>,
)
    requires
        converses(session, outcomes, CorimStep::Finished(Ok(endorsement))),
    ensures
        outcomes.len() == phases_left(session.phase) + 1,
        forall|i: int|
            0 <= i < outcomes.len() ==> (#[trigger] outcomes[i] is Ok || (phases_left(session.phase)
                - i == phases_left(CorimPhase::InitializeSecurity) && outcomes[i]->Err_0.code
                == RPC_E_TOO_LATE)),
        outcomes.len() >= 2 ==> outcomes[outcomes.len() - 2] is Ok && outcomes[outcomes.len()
            - 2]->Ok_0.number == 0,
        endorsement@ == (match outcomes.last()->Ok_0.bytes {
            Some(bytes) => bytes@,
            None => Seq::empty(),
        }),
    decreases outcomes.len(),
{
    let last = CorimStep::Finished(Ok(endorsement));
    if outcomes.len() > 1 {
        let (next, call) = choose|next: CorimSession, call: WmiCall| #[trigger]
            follows(session, outcomes[0], CorimStep::Call(next, call)) && converses(
                next,
                outcomes.skip(1),
                last,
            );
        let rest = outcomes.skip(1);
        law_endorsement_ends_a_full_conversation(next, rest, endorsement);
        law_conversation_ends(session, outcomes[0], CorimStep::Call(next, call));
        assert forall|i: int| 0 <= i < outcomes.len() implies (#[trigger] outcomes[i] is Ok || (
        phases_left(session.phase) - i == phases_left(CorimPhase::InitializeSecurity)
            && outcomes[i]->Err_0.code == RPC_E_TOO_LATE)) by {
            if i > 0 {
                assert(rest[i - 1] == outcomes[i]);
            }
        }
        assert(rest.last() == outcomes.last());
        if outcomes.len() > 2 {
            assert(rest[rest.len() - 2] == outcomes[outcomes.len() - 2]);
        }
    }
}

} // verus!
