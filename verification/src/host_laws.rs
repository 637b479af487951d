//! What the host's RPCs do, told by the pointers, bytes and calls that go in
//! and come out.

use crate::attest::{
    clears, finishes, handed_on, invokes, refuses, AttestInvocation, AttestReply, AttestRequest,
};
use crate::gsp::{
    answers, honoured_length, nonempty_count, opens, seals, GspCipher, GspClear, GspRequestInfo,
    GspResponseInfo,
};
use crate::hresult::{
    E_FAIL, E_INVALIDARG, E_OUTOFMEMORY, E_POINTER, HRESULT, RPC_E_TOO_LATE, S_OK,
};
use crate::text::decimal_chars;
use crate::text_laws::{law_decimal_reads_back, worth};
use crate::wmi::{
    follows, is_call_of, phases_left, CorimPhase, CorimSession, CorimStep, WmiCall, WmiCallKind,
    WmiError, WmiObject, WmiReply,
};
use vstd::prelude::*;

verus! {

/// The smaller of a claimed length and the capacity of a clear buffer.
pub open spec fn capped(claimed: u32) -> int {
    if claimed <= 64 {
        claimed as int
    } else {
        64
    }
}

/// A response echoes each seed verbatim: byte `i` of the encrypted seed is byte
/// `i` of the new one, and byte `i` of each decrypted seed is byte `i` of its
/// stored blob, for every byte of its length. All bytes beyond are zero.
pub proof fn law_seeds_are_echoed_byte_by_byte(
    request: GspRequestInfo,
    response: GspResponseInfo,
    slot: int,
    i: int,
)
    requires
        answers(response, request),
        0 <= slot < 2,
        0 <= i,
    ensures
        response.encrypted_gsp.length == capped(request.new_gsp.length),
        i < capped(request.new_gsp.length) ==> response.encrypted_gsp.buffer@[i]
            == request.new_gsp.buffer@[i],
        capped(request.new_gsp.length) <= i < 512 ==> response.encrypted_gsp.buffer@[i] == 0,
        response.decrypted_gsp@[slot].length == capped(request.encrypted_gsp@[slot].length),
        i < capped(request.encrypted_gsp@[slot].length) ==> response.decrypted_gsp@[slot].buffer@[i]
            == request.encrypted_gsp@[slot].buffer@[i],
        capped(request.encrypted_gsp@[slot].length) <= i < 64
            ==> response.decrypted_gsp@[slot].buffer@[i] == 0,
        response.response_status_flags == 1,
{
    let cipher = response.encrypted_gsp.buffer@;
    let clear = response.decrypted_gsp@[slot];
    assert(clear.buffer@.len() == 64);
    if i < 512 {
        assert(cipher[i] == cipher[i]);
    }
    if i < 64 {
        assert(clear.buffer@[i] == clear.buffer@[i]);
    }
}

/// Sealing a seed keeps each of its bytes in place, and so does opening one.
pub proof fn law_seeds_keep_their_bytes(clear: GspClear, cipher: GspCipher, i: int)
    requires
        0 <= i,
    ensures
        seals(cipher, clear) ==> cipher.length == capped(clear.length) && (i < capped(clear.length)
            ==> cipher.buffer@[i] == clear.buffer@[i]) && (capped(clear.length) <= i < 512
            ==> cipher.buffer@[i] == 0),
        opens(clear, cipher) ==> clear.length == capped(cipher.length) && (i < capped(cipher.length)
            ==> clear.buffer@[i] == cipher.buffer@[i]) && (capped(cipher.length) <= i < 64
            ==> clear.buffer@[i] == 0),
{
    let sealed = cipher.buffer@;
    let opened = clear.buffer@;
    if i < 512 {
        assert(sealed[i] == sealed[i]);
    }
    if i < 64 {
        assert(opened[i] == opened[i]);
    }
}

/// Over two boots, byte `i` of the seed that is given back is byte `i` of the
/// seed that was offered first, in whichever slot its blob is replayed.
pub proof fn law_replayed_seed_is_the_first_byte_by_byte(
    request: GspRequestInfo,
    response: GspResponseInfo,
    next_request: GspRequestInfo,
    next_response: GspResponseInfo,
    slot: int,
    i: int,
)
    requires
        answers(response, request),
        answers(next_response, next_request),
        0 <= slot < 2,
        next_request.encrypted_gsp@[slot] == response.encrypted_gsp,
        0 <= i < capped(request.new_gsp.length),
    ensures
        next_response.decrypted_gsp@[slot].length == capped(request.new_gsp.length),
        next_response.decrypted_gsp@[slot].buffer@[i] == request.new_gsp.buffer@[i],
{
    law_seeds_are_echoed_byte_by_byte(request, response, slot, i);
    law_seeds_are_echoed_byte_by_byte(next_request, next_response, slot, i);
}

/// A length is honoured up to the capacity.
pub proof fn law_lengths_are_capped(claimed: u32)
    ensures
        honoured_length(claimed) <= claimed,
        honoured_length(claimed) <= 64,
        honoured_length(claimed) == claimed || honoured_length(claimed) == 64,
{
}

/// The seeds of a request that are not empty are counted each once.
pub proof fn law_stored_seeds_are_counted(ciphers: Seq<GspCipher>, cipher: GspCipher)
    ensures
        nonempty_count(Seq::empty()) == 0,
        cipher.length > 0 ==> nonempty_count(ciphers.push(cipher)) == nonempty_count(ciphers) + 1,
        cipher.length == 0 ==> nonempty_count(ciphers.push(cipher)) == nonempty_count(ciphers),
{
    assert(ciphers.push(cipher).drop_last() =~= ciphers);
}

/// The name that is handed on is the caller's, and an unreadable one counts as
/// empty; a report is missing exactly if one is announced and not there.
pub proof fn law_attestation_request_means_what_it_says(request: AttestRequest)
    ensures
        request.vm_name matches Some(name) ==> request.name() == name@,
        request.vm_name is None ==> request.name().len() == 0,
        request.report_missing() <==> request.report_size != 0 && !request.report_present,
{
}

/// The agent is asked for this very VM and the whole report, and an endorsement
/// is looked for exactly if the VM has a name.
pub proof fn law_invocation_is_the_request(request: AttestRequest, invocation: AttestInvocation)
    requires
        invokes(request, invocation),
    ensures
        invocation.vm_id == request.vm_id,
        invocation.report_len == request.report_size,
        request.vm_name matches Some(name) ==> invocation.vm_name@ == name@,
        request.vm_name is None ==> invocation.vm_name@.len() == 0,
        invocation.fetch_endorsement <==> request.vm_name is Some && request.vm_name->0@.len() > 0,
{
}

/// An endorsement that was fetched is handed on as it is, and nothing else is.
pub proof fn law_fetched_endorsement_is_handed_on(bytes: Vec<u8>, error: WmiError)
    ensures
        handed_on(Some(Ok(bytes))) == Some(bytes),
        handed_on(Some(Err(error))) is None,
        handed_on(None) is None,
{
}

/// Each way a finished call can fail has its status, copies nothing and leaves
/// the size alone: an agent that failed, a payload that is too large, and a
/// response that cannot be stored.
pub proof fn law_attestation_failures<E>(
    request: AttestRequest,
    payload: Vec<u8>,
    failure: E,
    before: Option<u32>,
    reply: AttestReply,
    after: Option<u32>,
)
    requires
        payload@.len() < 0x1_0000_0000,
    ensures
        finishes(request, Err::<Vec<u8>, E>(failure), before, reply, after) ==> reply.status
            == E_FAIL && reply.response@.len() == 0 && after == before,
        finishes(request, Ok::<Vec<u8>, E>(payload), before, reply, after) && payload@.len()
            > request.response_buffer_size ==> reply.status == E_OUTOFMEMORY
            && reply.response@.len() == 0 && after == before,
        finishes(request, Ok::<Vec<u8>, E>(payload), before, reply, after) && 0 < payload@.len()
            <= request.response_buffer_size && !request.response_present ==> reply.status
            == E_INVALIDARG && reply.response@.len() == 0 && after == before,
        finishes(request, Ok::<Vec<u8>, E>(payload), before, reply, after) && payload@.len()
            <= request.response_buffer_size && (payload@.len() == 0 || request.response_present)
            ==> reply.response@ == payload@ && (before is Some ==> reply.status == S_OK && after
            is Some && after->0 == payload@.len()) && (before is None ==> reply.status == E_POINTER
            && after is None),
        !request.overruns(payload@.len()),
{
    if payload@.len() == 0 {
        assert(payload@ =~= Seq::empty());
    }
}

/// The size that is reported is the length of the payload up to a multiple of
/// two to the 32nd. So only a payload of that length or more can overrun the
/// response buffer: one that is longer than the buffer and is reported as if it
/// fitted.
pub proof fn law_only_huge_payloads_overrun(request: AttestRequest, len: nat)
    ensures
        AttestRequest::reported_size(len) < 0x1_0000_0000,
        (len - AttestRequest::reported_size(len)) % 0x1_0000_0000 == 0,
        len < 0x1_0000_0000 ==> AttestRequest::reported_size(len) == len,
        request.overruns(len) ==> len >= 0x1_0000_0000,
        request.overruns(len) <==> request.response_present && len > request.response_buffer_size
            && len % 0x1_0000_0000 > 0 && len % 0x1_0000_0000 <= request.response_buffer_size,
{
}

/// Clearing stores a zero where there is a place for it, and a refusal is its
/// status and nothing else.
pub proof fn law_clearing_and_refusing(
    before: Option<u32>,
    after: Option<u32>,
    reply: AttestReply,
    status: HRESULT,
)
    ensures
        clears(before, after) <==> (before is Some && after == Some(0u32)) || (before is None
            && after is None),
        refuses(reply, status) <==> reply.status == status && reply.response@.len() == 0,
{
}

/// A conversation that has made `calls` so far, with what came of all but the
/// last of them.
pub open spec fn held(
    vm_name: Seq<char>,
    sessions: Seq<CorimSession>,
    calls: Seq<WmiCall>,
    outcomes: Seq<Result<WmiReply, WmiError>>,
) -> bool {
    &&& calls.len() > 0
    &&& sessions.len() == calls.len()
    &&& outcomes.len() + 1 == calls.len()
    &&& sessions[0].phase == CorimPhase::InitializeCom
    &&& sessions[0].vm_name@ == vm_name
    &&& is_call_of(calls[0], CorimPhase::InitializeCom, vm_name, Seq::empty(), Seq::empty())
    &&& forall|i: int| 0 <= i < outcomes.len() ==> #[trigger] goes_on(sessions, calls, outcomes, i)
}

/// Whether the next call follows from the `i`-th outcome.
pub open spec fn goes_on(
    sessions: Seq<CorimSession>,
    calls: Seq<WmiCall>,
    outcomes: Seq<Result<WmiReply, WmiError>>,
    i: int,
) -> bool {
    follows(sessions[i], outcomes[i], CorimStep::Call(sessions[i + 1], calls[i + 1]))
}

proof fn lemma_held(
    vm_name: Seq<char>,
    sessions: Seq<CorimSession>,
    calls: Seq<WmiCall>,
    outcomes: Seq<Result<WmiReply, WmiError>>,
    i: int,
)
    requires
        held(vm_name, sessions, calls, outcomes),
        0 <= i < calls.len(),
    ensures
        phases_left(sessions[i].phase) == 24 - i,
        sessions[i].vm_name@ == vm_name,
        i > 15 ==> sessions[i].embedded@ == outcomes[15]->Ok_0.text@,
        i > 0 ==> is_call_of(
            calls[i],
            sessions[i].phase,
            vm_name,
            crate::wmi::replied_text(outcomes[i - 1]),
            sessions[i].embedded@,
        ),
    decreases i,
{
    if i > 0 {
        lemma_held(vm_name, sessions, calls, outcomes, i - 1);
        assert(goes_on(sessions, calls, outcomes, i - 1));
    }
}

/// Whether an outcome brought an object in.
pub open spec fn brought_object(outcome: Result<WmiReply, WmiError>) -> bool {
    outcome matches Ok(reply) && reply.object_present
}

/// Whether an outcome brought a text in.
pub open spec fn brought_text(outcome: Result<WmiReply, WmiError>) -> bool {
    outcome matches Ok(reply) && reply.text@.len() > 0
}

/// The calls of a conversation are linked by the objects and texts that earlier
/// calls brought in. The VM is found by its name, its path leads to its
/// settings, their path to the security settings, which are written as text.
/// The class name and the path of the service are read from what the query for
/// the service brought in, the class from that name, the parameters from the
/// class. The method gets the text and is run at that path, and the return
/// value and the endorsement are read from what it brought in.
#[verifier::rlimit(60)]
pub proof fn law_calls_are_linked(
    vm_name: Seq<char>,
    sessions: Seq<CorimSession>,
    calls: Seq<WmiCall>,
    outcomes: Seq<Result<WmiReply, WmiError>>,
)
    requires
        held(vm_name, sessions, calls, outcomes),
    ensures
        calls.len() <= 25,
        calls[0].kind == WmiCallKind::InitializeCom && calls[0].object == WmiObject::Nothing,
        calls.len() > 1 ==> calls[1].kind == WmiCallKind::InitializeSecurity && calls[1].object
            == WmiObject::Nothing,
        calls.len() > 2 ==> calls[2].kind == WmiCallKind::CreateLocator && calls[2].object
            == WmiObject::Nothing,
        calls.len() > 3 ==> calls[3].kind == WmiCallKind::Connect && calls[3].object
            == WmiObject::Nothing && calls[3].text@ == "root\\virtualization\\v2"@,
        calls.len() > 4 ==> calls[4].kind == WmiCallKind::Query && calls[4].object == WmiObject::Vm
            && calls[4].text@ == "SELECT * FROM Msvm_ComputerSystem WHERE ElementName = '"@
            + vm_name + "'"@,
        calls.len() > 5 ==> calls[5].kind == WmiCallKind::Next && calls[5].object
            == calls[4].object,
        calls.len() > 6 ==> brought_object(outcomes[5]) && outcomes[5]->Ok_0.returned > 0
            && calls[6].kind == WmiCallKind::Query && calls[6].object == WmiObject::SecurityService
            && calls[6].text@ == "SELECT * FROM Msvm_SecurityService"@,
        calls.len() > 7 ==> calls[7].kind == WmiCallKind::Next && calls[7].object
            == calls[6].object,
        calls.len() > 8 ==> brought_object(outcomes[7]) && outcomes[7]->Ok_0.returned > 0
            && calls[8].kind == WmiCallKind::GetString && calls[8].object == calls[5].object
            && calls[8].text@ == "__PATH"@,
        calls.len() > 9 ==> brought_text(outcomes[8]) && calls[9].kind == WmiCallKind::Query
            && calls[9].object == WmiObject::Settings && calls[9].text@ == "ASSOCIATORS OF {"@
            + outcomes[8]->Ok_0.text@ + "} WHERE ResultClass = Msvm_VirtualSystemSettingData"@,
        calls.len() > 10 ==> calls[10].kind == WmiCallKind::Next && calls[10].object
            == calls[9].object,
        calls.len() > 11 ==> brought_object(outcomes[10]) && outcomes[10]->Ok_0.returned > 0
            && calls[11].kind == WmiCallKind::GetString && calls[11].object == calls[10].object
            && calls[11].text@ == "__PATH"@,
        calls.len() > 12 ==> brought_text(outcomes[11]) && calls[12].kind == WmiCallKind::Query
            && calls[12].object == WmiObject::SecuritySettings && calls[12].text@
            == "ASSOCIATORS OF {"@ + outcomes[11]->Ok_0.text@
            + "} WHERE ResultClass = Msvm_SecuritySettingData"@,
        calls.len() > 13 ==> calls[13].kind == WmiCallKind::Next && calls[13].object
            == calls[12].object,
        calls.len() > 14 ==> brought_object(outcomes[13]) && outcomes[13]->Ok_0.returned > 0
            && calls[14].kind == WmiCallKind::CreateTextSource && calls[14].object
            == WmiObject::Nothing,
        calls.len() > 15 ==> calls[15].kind == WmiCallKind::GetText && calls[15].object
            == calls[13].object,
        calls.len() > 16 ==> calls[16].kind == WmiCallKind::GetString && calls[16].object
            == calls[7].object && calls[16].text@ == "__CLASS"@,
        calls.len() > 17 ==> brought_text(outcomes[16]) && calls[17].kind == WmiCallKind::GetClass
            && calls[17].object == WmiObject::ServiceClass && calls[17].text@
            == outcomes[16]->Ok_0.text@,
        calls.len() > 18 ==> brought_object(outcomes[17]) && calls[18].kind
            == WmiCallKind::GetMethod && calls[18].object == WmiObject::MethodParameters
            && calls[18].text@ == "GetCorimEndorsement"@,
        calls.len() > 19 ==> brought_object(outcomes[18]) && calls[19].kind
            == WmiCallKind::SpawnInstance && calls[19].object == WmiObject::Parameters,
        calls.len() > 20 ==> calls[20].kind == WmiCallKind::Put && calls[20].object
            == calls[19].object && calls[20].text@ == "SecuritySettingData"@ && calls[20].value@
            == outcomes[15]->Ok_0.text@,
        calls.len() > 21 ==> calls[21].kind == WmiCallKind::GetString && calls[21].object
            == calls[7].object && calls[21].text@ == "__PATH"@,
        calls.len() > 22 ==> brought_text(outcomes[21]) && calls[22].kind == WmiCallKind::ExecMethod
            && calls[22].object == WmiObject::Output && calls[22].text@ == outcomes[21]->Ok_0.text@
            && calls[22].value@ == "GetCorimEndorsement"@,
        calls.len() > 23 ==> brought_object(outcomes[22]) && calls[23].kind
            == WmiCallKind::GetNumber && calls[23].object == calls[22].object && calls[23].text@
            == "ReturnValue"@,
        calls.len() > 24 ==> outcomes[23] is Ok && outcomes[23]->Ok_0.number == 0 && calls[24].kind
            == WmiCallKind::GetBytes && calls[24].object == calls[22].object && calls[24].text@
            == "CorimEndorsement"@,
        forall|i: int|
            0 <= i < calls.len() ==> {
                let call = #[trigger] calls[i];
                &&& i == 0 || i == 1 || i == 2 || i == 5 || i == 7 || i == 10 || i == 13 || i == 14
                    || i == 15 || i == 19 ==> call.text@.len() == 0
                &&& i != 20 && i != 22 ==> call.value@.len() == 0
            },
        forall|i: int| 0 <= i < calls.len() ==> (#[trigger] sessions[i]).vm_name@ == vm_name,
        forall|i: int|
            0 <= i < outcomes.len() ==> (#[trigger] outcomes[i] is Ok || (i == 1
                && outcomes[i]->Err_0.code == RPC_E_TOO_LATE)),
{
    let n = calls.len() as int;
    lemma_held(vm_name, sessions, calls, outcomes, n - 1);
    assert forall|i: int| 0 <= i < n implies phases_left(#[trigger] sessions[i].phase) == 24 - i
        && sessions[i].vm_name@ == vm_name && (i > 15 ==> sessions[i].embedded@
        == outcomes[15]->Ok_0.text@) && (i > 0 ==> is_call_of(
        calls[i],
        sessions[i].phase,
        vm_name,
        crate::wmi::replied_text(outcomes[i - 1]),
        sessions[i].embedded@,
    )) by {
        lemma_held(vm_name, sessions, calls, outcomes, i);
    }
    lemma_steps(vm_name, sessions, calls, outcomes);
}

/// Every outcome that the conversation went on from is a success, but for
/// security that was initialized before.
proof fn lemma_steps(
    vm_name: Seq<char>,
    sessions: Seq<CorimSession>,
    calls: Seq<WmiCall>,
    outcomes: Seq<Result<WmiReply, WmiError>>,
)
    requires
        held(vm_name, sessions, calls, outcomes),
    ensures
        forall|i: int|
            0 <= i < outcomes.len() ==> {
                let outcome = #[trigger] outcomes[i];
                &&& outcome is Ok || (i == 1 && outcome->Err_0.code == RPC_E_TOO_LATE)
                &&& outcome is Ok ==> !crate::wmi::reply_lacks(sessions[i].phase, outcome->Ok_0)
            },
{
    assert forall|i: int| 0 <= i < outcomes.len() implies {
        let outcome = #[trigger] outcomes[i];
        &&& outcome is Ok || (i == 1 && outcome->Err_0.code == RPC_E_TOO_LATE)
        &&& outcome is Ok ==> !crate::wmi::reply_lacks(sessions[i].phase, outcome->Ok_0)
    } by {
        lemma_held(vm_name, sessions, calls, outcomes, i);
        assert(goes_on(sessions, calls, outcomes, i));
    }
}

/// A call that returned is enough to go on with exactly if it brought what it is
/// for: a result of a query, a text, an object, or a return value of zero. Of
/// the other calls nothing is asked.
pub proof fn law_what_each_call_has_to_bring(
    session: CorimSession,
    reply: WmiReply,
    step: CorimStep,
)
    requires
        follows(session, Ok(reply), step),
    ensures
        (step matches CorimStep::Finished(Err(_))) <==> match session.phase {
            CorimPhase::NextVm | CorimPhase::NextService | CorimPhase::NextSettings
            | CorimPhase::NextSecurity => reply.returned == 0 || !reply.object_present,
            CorimPhase::VmPath | CorimPhase::SettingsPath | CorimPhase::ServiceClassName
            | CorimPhase::ServicePath => reply.text@.len() == 0,
            CorimPhase::GetServiceClass | CorimPhase::GetMethod | CorimPhase::Invoke =>
                !reply.object_present,
            CorimPhase::ReturnValue => reply.number != 0,
            _ => false,
        },
        step matches CorimStep::Finished(Err(error)) ==> session.phase != CorimPhase::ReturnValue
            ==> error.code == -1,
{
}

/// A call that failed ends the conversation with its own error. The one
/// exception is security that was initialized before.
pub proof fn law_failed_call_ends_with_its_error(
    session: CorimSession,
    error: WmiError,
    step: CorimStep,
)
    requires
        follows(session, Err(error), step),
    ensures
        session.phase == CorimPhase::InitializeSecurity && error.code == RPC_E_TOO_LATE ==> step
            is Call,
        !(session.phase == CorimPhase::InitializeSecurity && error.code == RPC_E_TOO_LATE) ==> step
            == CorimStep::Finished(Err(error)),
{
}

/// A VM that is not there is told by its name, and a method that failed by the
/// number it returned, as a code and in decimal.
pub proof fn law_conversation_tells_what_went_wrong(
    session: CorimSession,
    reply: WmiReply,
    step: CorimStep,
)
    requires
        follows(session, Ok(reply), step),
    ensures
        session.phase == CorimPhase::NextVm && (reply.returned == 0 || !reply.object_present)
            ==> (step matches CorimStep::Finished(Err(error)) && error.code == -1 && error.message@
            == "VM '"@ + session.vm_name@ + "' not found in Msvm_ComputerSystem"@),
        session.phase == CorimPhase::ReturnValue && reply.number != 0 ==> (step
            matches CorimStep::Finished(Err(error)) && error.code == reply.number && (exists|
            digits: Seq<char>,
        |
            error.message@ == "GetCorimEndorsement failed with return value "@ + digits && (
            #[trigger] worth(digits, 10) - reply.number) % 0x1_0000_0000 == 0 && 0 <= worth(
                digits,
                10,
            ) < 0x1_0000_0000)),
        session.phase == CorimPhase::ReturnValue && reply.number == 0 ==> step is Call,
        step matches CorimStep::Finished(Err(error)) ==> match session.phase {
            CorimPhase::NextService => error.message@ == "Msvm_SecurityService not found"@,
            CorimPhase::NextSettings => error.message@ == "Msvm_VirtualSystemSettingData not found"@,
            CorimPhase::NextSecurity => error.message@ == "Msvm_SecuritySettingData not found"@,
            CorimPhase::VmPath | CorimPhase::SettingsPath | CorimPhase::ServicePath =>
                error.message@ == "property '__PATH' is not a string"@,
            CorimPhase::ServiceClassName => error.message@
                == "property '__CLASS' is not a string"@,
            CorimPhase::GetServiceClass => error.message@
                == "Failed to get Msvm_SecurityService class"@,
            CorimPhase::GetMethod => error.message@
                == "GetCorimEndorsement has no input parameters"@,
            CorimPhase::Invoke => error.message@ == "No output returned from GetCorimEndorsement"@,
            _ => true,
        },
        session.phase == CorimPhase::Endorsement ==> (step matches CorimStep::Finished(Ok(read))
            && read@ == (match reply.bytes {
            Some(bytes) => bytes@,
            None => Seq::empty(),
        })),
{
    reveal_strlit("property '");
    reveal_strlit("__PATH");
    reveal_strlit("__CLASS");
    reveal_strlit("' is not a string");
    reveal_strlit("property '__PATH' is not a string");
    reveal_strlit("property '__CLASS' is not a string");
    assert("property '"@ + "__PATH"@ + "' is not a string"@
        =~= "property '__PATH' is not a string"@);
    assert("property '"@ + "__CLASS"@ + "' is not a string"@
        =~= "property '__CLASS' is not a string"@);
    if session.phase == CorimPhase::ReturnValue && reply.number != 0 {
        let digits = decimal_chars(crate::wmi::unsigned(reply.number));
        law_decimal_reads_back(crate::wmi::unsigned(reply.number));
        assert((worth(digits, 10) - reply.number) % 0x1_0000_0000 == 0);
    }
}

} // verus!
