//! What calls in a row do: what one function returns, handed to the next.

use crate::attest::{invokes, AgentCall, AttestInvocation, AttestRequest};
use crate::broker::{
    reply, BrokerAction, BrokerInput, BrokerPhase, BrokerProgress, FileId, StoreCall,
    VmgsBrokerError, VmgsBrokerRpc, VmgsError,
};
use crate::client::{ChannelError, RpcError, VmgsClient, VmgsClientError};
use crate::gsp::{
    gsp_request_summary, open_seed, rpc_vm_gsp_request, seal_seed, GspCipher, GspClear, GspOutcome,
    GspRequestInfo, GspResponseInfo,
};
use crate::hardware_reseal::{HardwareReseal, Publish};
use crate::host_laws::{
    capped, held, law_replayed_seed_is_the_first_byte_by_byte, law_seeds_are_echoed_byte_by_byte,
    law_seeds_keep_their_bytes, law_stored_seeds_are_counted,
};
use crate::hresult::{format_hresult, HRESULT};
use crate::mesh_layer::{on_event, MessageVisitor, SubscriberLevel, TraceRequest};
use crate::protector::{
    law_encoding_is_injective, law_sealed_header_validates, law_stored_policy_is_unique,
    parse_hardware_key_protector, validated_policy, HwKeyProtector, InvalidProtectorSize,
    KeyDerivationPolicy, KeyDerivationSvn, TeeType,
};
use crate::runtime_sealing::{
    create_protector, protector_matches, DeriveToSeal, Error, HardwareSealingPolicy, MatchStep,
    ReportToSeal, Seal, SealedDek, Tee,
};
use crate::text::{decimal, hex, name_units, read_utf16, utf16_text};
use crate::text_laws::{
    law_decimal_reads_back, law_hex_reads_back, law_name_ends_at_the_terminator,
    law_status_bits_are_the_status, law_utf16_spells_each_character, units_of, worth,
};
use crate::tracing_setup::{
    init_tracing_backend, legacy_openvmm_env, notification, BackendInput, BackendStart, EnvLookup,
    Notification,
};
use crate::wmi::{CorimSession, CorimStep, WmiCall, WmiError, WmiReply};
use vstd::arithmetic::power::pow;
use vstd::prelude::*;
use vstd::utf8::encode_utf8;

verus! {

/// What a client asks for, an idle task asks of the store: the same operation
/// on the same file with the same data.
pub proof fn law_client_requests_become_store_calls(
    client: VmgsClient,
    progress: BrokerProgress,
    file_id: FileId,
    data: Vec<u8>,
    request: VmgsBrokerRpc,
)
    requires
        progress.phase == BrokerPhase::Receiving,
    ensures
        ({
            let action = progress.spec_action(BrokerInput::Message(request));
            &&& call_ensures(VmgsClient::get_file_info, (&client, file_id), request) ==> action
                == BrokerAction::Call(StoreCall::GetFileInfo(file_id))
            &&& call_ensures(VmgsClient::read_file, (&client, file_id), request) ==> action
                == BrokerAction::Call(StoreCall::ReadFile(file_id))
            &&& call_ensures(VmgsClient::write_file, (&client, file_id, data), request) ==> action
                == BrokerAction::Call(StoreCall::WriteFile(file_id, data))
            &&& call_ensures(VmgsClient::write_file_encrypted, (&client, file_id, data), request)
                ==> action == BrokerAction::Call(StoreCall::WriteFileEncrypted(file_id, data))
            &&& call_ensures(VmgsClient::delete_file, (&client, file_id), request) ==> action
                == BrokerAction::Call(StoreCall::DeleteFile(file_id))
            &&& call_ensures(VmgsClient::save, (&client,), request) ==> action
                == BrokerAction::Call(StoreCall::Save)
            &&& call_ensures(VmgsClient::active_encryption_key, (&client,), request) ==> action
                == BrokerAction::Call(StoreCall::ActiveEncryptionKey)
        }),
{
}

/// A guarded write that a client asks for is made, where the store's active key
/// is the expected one, with the client's data to the client's file, and not at
/// all where the keys differ in any byte.
pub proof fn law_client_guarded_write(
    client: VmgsClient,
    progress: BrokerProgress,
    file_id: FileId,
    data: Vec<u8>,
    expected_key: [u8; 32],
    active_key: [u8; 32],
    request: VmgsBrokerRpc,
)
    requires
        progress.phase == BrokerPhase::Receiving,
        call_ensures(
            VmgsClient::write_file_if_encryption_key_matches,
            (&client, file_id, data, expected_key),
            request,
        ),
    ensures
        ({
            let taken = progress.spec_next(BrokerInput::Message(request));
            let action = taken.spec_action(BrokerInput::ActiveKey(Ok(active_key)));
            &&& progress.spec_action(BrokerInput::Message(request)) is ReadActiveKey
            &&& action is Write <==> (forall|i: int|
                0 <= i < 32 ==> #[trigger] active_key@[i] == expected_key@[i])
            &&& action matches BrokerAction::Write(write) ==> write.file_id == file_id && write.buf
                == data
            &&& action !is Write ==> action == BrokerAction::Reply(Ok(false))
        }),
{
    if forall|i: int| 0 <= i < 32 ==> #[trigger] active_key@[i] == expected_key@[i] {
        assert(active_key =~= expected_key);
    }
}

/// An attempt fetches the active key from the store, and publishes its own
/// protector to the protector's file under its own key.
pub proof fn law_attempt_asks_the_store(
    worker: HardwareReseal,
    publish: Publish,
    progress: BrokerProgress,
    request: VmgsBrokerRpc,
    active_key: [u8; 32],
)
    requires
        progress.phase == BrokerPhase::Receiving,
    ensures
        call_ensures(HardwareReseal::reseal, (&worker,), request) ==> progress.spec_action(
            BrokerInput::Message(request),
        ) == BrokerAction::Call(StoreCall::ActiveEncryptionKey),
        call_ensures(Publish::request, (&publish, &worker.vmgs), request) ==> {
            let taken = progress.spec_next(BrokerInput::Message(request));
            let action = taken.spec_action(BrokerInput::ActiveKey(Ok(active_key)));
            &&& action is Write <==> active_key == publish.key
            &&& action matches BrokerAction::Write(write) ==> write.file_id.0 == 11 && write.buf@
                == publish.protector@
        },
{
}

/// What the store answered, the caller gets: a value as it is, and a failure
/// with its words. A channel that is gone is told apart from both.
pub proof fn law_answers_reach_the_caller<T>(
    client: VmgsClient,
    answer: Result<T, VmgsError>,
    replied: Result<T, VmgsBrokerError>,
    returned: Result<T, RpcError<VmgsBrokerError>>,
    result: Result<T, VmgsClientError>,
    lost: ChannelError,
)
    requires
        call_ensures(reply::<T>, (answer,), replied),
        call_ensures(VmgsClient::result::<T>, (&client, returned), result),
        returned == (match replied {
            Ok(value) => Ok::<T, RpcError<VmgsBrokerError>>(value),
            Err(error) => Err(RpcError::Call(error)),
        }) || returned == Err::<T, RpcError<VmgsBrokerError>>(RpcError::Channel(lost)),
    ensures
        returned matches Err(RpcError::Channel(gone)) ==> result == Err::<T, VmgsClientError>(
            VmgsClientError::BrokerOffline(gone),
        ),
        !(returned matches Err(RpcError::Channel(_))) ==> match answer {
            Ok(value) => result == Ok::<T, VmgsClientError>(value),
            Err(VmgsError::FileInfoNotAllocated(_)) => result == Err::<T, VmgsClientError>(
                VmgsClientError::Vmgs(VmgsBrokerError::FileInfoNotAllocated),
            ),
            Err(VmgsError::Other(error)) => result == Err::<T, VmgsClientError>(
                VmgsClientError::Vmgs(VmgsBrokerError::Other(error)),
            ),
        },
{
}

/// A save comes back as it is, or as a broker that is offline.
pub proof fn law_saves_reach_the_caller<T>(
    client: VmgsClient,
    value: T,
    lost: ChannelError,
    result: Result<T, VmgsClientError>,
)
    ensures
        call_ensures(VmgsClient::saved::<T>, (&client, Ok(value)), result) ==> result == Ok::<
            T,
            VmgsClientError,
        >(value),
        call_ensures(VmgsClient::saved::<T>, (&client, Err(lost)), result) ==> result == Err::<
            T,
            VmgsClientError,
        >(VmgsClientError::BrokerOffline(lost)),
{
}

/// A seed that is sealed and opened again is the seed, byte for byte as far as
/// it is honoured.
pub proof fn law_sealed_seed_opens_to_itself(
    clear: GspClear,
    cipher: GspCipher,
    opened: GspClear,
    i: int,
)
    requires
        call_ensures(seal_seed, (&clear,), cipher),
        call_ensures(open_seed, (&cipher,), opened),
        0 <= i < 64,
    ensures
        opened.length == capped(clear.length),
        i < capped(clear.length) ==> cipher.buffer@[i] == clear.buffer@[i] && opened.buffer@[i]
            == clear.buffer@[i],
        i >= capped(clear.length) ==> opened.buffer@[i] == 0,
{
    law_seeds_keep_their_bytes(clear, cipher, i);
    law_seeds_keep_their_bytes(opened, cipher, i);
}

/// A GSP call that is wanted and has both its pointers is answered: each seed is
/// echoed byte by byte. It is raised exactly if no refresh is wanted, and fails
/// exactly if one is and a pointer is missing.
pub proof fn law_gsp_call_echoes_its_seeds(
    state_refresh: Option<bool>,
    request: GspRequestInfo,
    response_present: bool,
    outcome: GspOutcome,
    missing: GspOutcome,
    slot: int,
    i: int,
)
    requires
        call_ensures(
            rpc_vm_gsp_request,
            (state_refresh, Some(&request), response_present),
            outcome,
        ),
        call_ensures(rpc_vm_gsp_request, (state_refresh, None, response_present), missing),
        0 <= slot < 2,
        0 <= i,
    ensures
        outcome is Raise <==> state_refresh != Some(true),
        outcome is Fail <==> state_refresh == Some(true) && !response_present,
        missing is Raise <==> state_refresh != Some(true),
        missing is Fail <==> state_refresh == Some(true),
        outcome matches GspOutcome::Respond(response) ==> response.encrypted_gsp.length == capped(
            request.new_gsp.length,
        ) && (i < capped(request.new_gsp.length) ==> response.encrypted_gsp.buffer@[i]
            == request.new_gsp.buffer@[i]) && (i < capped(request.encrypted_gsp@[slot].length)
            ==> response.decrypted_gsp@[slot].buffer@[i]
            == request.encrypted_gsp@[slot].buffer@[i]),
{
    if let GspOutcome::Respond(response) = outcome {
        law_seeds_are_echoed_byte_by_byte(request, response, slot, i);
    }
}

/// Over two calls the blob of the first, replayed in either slot of the second,
/// gives back each byte of the seed that the first offered.
pub proof fn law_gsp_calls_give_the_seed_back(
    first: GspRequestInfo,
    second: GspRequestInfo,
    sealed: GspResponseInfo,
    opened: GspResponseInfo,
    slot: int,
    i: int,
)
    requires
        call_ensures(
            rpc_vm_gsp_request,
            (Some(true), Some(&first), true),
            GspOutcome::Respond(sealed),
        ),
        call_ensures(
            rpc_vm_gsp_request,
            (Some(true), Some(&second), true),
            GspOutcome::Respond(opened),
        ),
        0 <= slot < 2,
        second.encrypted_gsp@[slot] == sealed.encrypted_gsp,
        0 <= i < capped(first.new_gsp.length),
    ensures
        opened.decrypted_gsp@[slot].length == capped(first.new_gsp.length),
        opened.decrypted_gsp@[slot].buffer@[i] == first.new_gsp.buffer@[i],
{
    law_replayed_seed_is_the_first_byte_by_byte(first, sealed, second, opened, slot, i);
}

/// The summary of a request counts the stored seeds that are not empty and
/// tells the claimed length and the flags as they are.
pub proof fn law_gsp_summary(request: GspRequestInfo, summary: (u32, usize, u32))
    requires
        call_ensures(gsp_request_summary, (Some(&request),), summary),
    ensures
        summary.0 == request.new_gsp.length,
        summary.2 == request.supported_status_flags,
        summary.1 == (if request.encrypted_gsp@[0].length > 0 {
            1int
        } else {
            0
        }) + (if request.encrypted_gsp@[1].length > 0 {
            1int
        } else {
            0
        }),
{
    let none = Seq::<GspCipher>::empty();
    let one = none.push(request.encrypted_gsp@[0]);
    law_stored_seeds_are_counted(none, request.encrypted_gsp@[0]);
    law_stored_seeds_are_counted(one, request.encrypted_gsp@[1]);
    assert(one.push(request.encrypted_gsp@[1]) =~= request.encrypted_gsp@);
}

/// A protector that was created from a report, read back from its bytes, stores
/// the SVN of that report, all of it, and mixes the measurement in exactly
/// under `Hash`. What was sealed is the caller's DEK, unchanged.
pub proof fn law_created_protector_reads_back<S>(
    tee: Tee,
    policy: HardwareSealingPolicy,
    dek: [u8; 32],
    svn: KeyDerivationSvn,
    step: ReportToSeal,
    derive: DeriveToSeal,
    seal: Seal,
    sealed: SealedDek,
    created: Vec<u8>,
    stored: &[u8],
    protector: HwKeyProtector,
    read: Option<KeyDerivationPolicy>,
)
    requires
        call_ensures(create_protector::<S>, (tee, policy, &dek), Ok(step)),
        call_ensures(ReportToSeal::reported::<S>, (step, Ok(Some(svn))), Ok(derive)),
        call_ensures(DeriveToSeal::derived::<S>, (derive, Ok(())), Ok(seal)),
        call_ensures(Seal::sealed::<S>, (seal, Ok(sealed)), Ok(created)),
        stored@ == created@,
        call_ensures(parse_hardware_key_protector, (stored,), Ok(protector)),
        call_ensures(validated_policy, (&protector,), read),
    ensures
        derive.policy.svn == svn,
        derive.policy.mix_measurement <==> policy == HardwareSealingPolicy::Hash,
        seal.dek == dek,
        read matches Some(policy_read) && policy_read.svn == svn,
        read->0.mix_measurement <==> policy == HardwareSealingPolicy::Hash,
        protector matches HwKeyProtector::V3(v3) && v3.iv == sealed.iv && v3.ciphertext
            == sealed.ciphertext && v3.hmac == sealed.hmac,
{
    let p = seal.protector(sealed);
    law_sealed_header_validates(p, derive.policy);
    law_encoding_is_injective(protector, HwKeyProtector::V3(p));
    law_stored_policy_is_unique(protector, read->0, derive.policy);
}

/// Checking such a protector on the same TEE under the same configuration asks
/// for keys of the report's SVN, and compares with the DEK of the caller.
pub proof fn law_created_protector_is_checked_for_its_svn<S>(
    tee: Tee,
    policy: HardwareSealingPolicy,
    dek: [u8; 32],
    svn: KeyDerivationSvn,
    step: ReportToSeal,
    derive: DeriveToSeal,
    seal: Seal,
    sealed: SealedDek,
    created: Vec<u8>,
    stored: &[u8],
    other_dek: [u8; 32],
    check: MatchStep<S>,
)
    requires
        call_ensures(create_protector::<S>, (tee, policy, &dek), Ok(step)),
        call_ensures(ReportToSeal::reported::<S>, (step, Ok(Some(svn))), Ok(derive)),
        call_ensures(DeriveToSeal::derived::<S>, (derive, Ok(())), Ok(seal)),
        call_ensures(Seal::sealed::<S>, (seal, Ok(sealed)), Ok(created)),
        stored@ == created@,
        call_ensures(protector_matches::<S>, (tee, policy, stored, &other_dek), check),
    ensures
        check matches MatchStep::Derive(request) && request.policy.svn == svn && (
        request.policy.mix_measurement <==> policy == HardwareSealingPolicy::Hash) && request.dek
            == other_dek,
{
    let p = seal.protector(sealed);
    let protector = HwKeyProtector::V3(p);
    law_sealed_header_validates(p, derive.policy);
    crate::sealing_laws::law_keys_are_derived_for_the_reported_svn::<S>(step, svn);
    crate::sealing_laws::law_accepted_protectors_are_worth_deriving(
        tee,
        step.mix_measurement,
        protector,
        derive.policy,
    );
    if let MatchStep::Derive(request) = check {
        law_encoding_is_injective(request.protector, protector);
        law_stored_policy_is_unique(protector, request.policy, derive.policy);
    }
}

/// A report is asked for with user data that is all zero, exactly where sealing
/// is possible.
pub proof fn law_creation_starts_with_a_report<S>(
    tee: Tee,
    policy: HardwareSealingPolicy,
    dek: [u8; 32],
    started: Result<ReportToSeal, Error<S>>,
    i: int,
)
    requires
        call_ensures(create_protector::<S>, (tee, policy, &dek), started),
        0 <= i < 64,
    ensures
        started is Ok <==> tee.supports_derived_key && ((tee.tee_type == TeeType::Snp && policy
            != HardwareSealingPolicy::Disabled) || (tee.tee_type == TeeType::Tdx && policy
            == HardwareSealingPolicy::Hash)),
        started matches Ok(step) ==> step.report_data@[i] == 0 && step.tee_type == tee.tee_type
            && step.dek == dek,
{
}

/// A blob is read exactly if it has the size of one of the layouts, and told by
/// its size otherwise.
pub proof fn law_blobs_are_read_by_size(
    bytes: &[u8],
    parsed: Result<HwKeyProtector, InvalidProtectorSize>,
)
    requires
        call_ensures(parse_hardware_key_protector, (bytes,), parsed),
    ensures
        parsed is Ok <==> bytes@.len() == 104 || bytes@.len() == 128,
        parsed matches Ok(protector) ==> protector.encoded() == bytes@ && (protector is Legacy
            <==> bytes@.len() == 104),
        parsed matches Err(error) ==> error.size == bytes@.len(),
{
}

/// Numbers that are written read back as they were.
pub proof fn law_written_numbers_read_back(
    number: u32,
    in_decimal: String,
    in_hex: String,
    status: HRESULT,
    in_status: String,
)
    ensures
        call_ensures(decimal, (number,), in_decimal) ==> worth(in_decimal@, 10) == number,
        call_ensures(hex, (number, 8), in_hex) ==> in_hex@.len() == 8 && worth(in_hex@, 16)
            == number,
        call_ensures(format_hresult, (status,), in_status) ==> in_status@.len() == 10
            && in_status@[0] == '0' && in_status@[1] == 'x' && (worth(in_status@.skip(2), 16)
            - status) % 0x1_0000_0000 == 0,
{
    let bits = crate::hresult::status_bits(status);
    law_decimal_reads_back(number as nat);
    law_hex_reads_back(number as nat, 8);
    law_hex_reads_back(bits, 8);
    law_status_bits_are_the_status(status);
    reveal_strlit("0x");
    reveal_with_fuel(pow, 9);
    assert(pow(16, 8) == 0x1_0000_0000);
    if call_ensures(format_hresult, (status,), in_status) {
        assert(in_status@.skip(2) =~= crate::text::hex_chars(bits, 8));
    }
}

/// An event reaches the host with the words, the fields, the target and the
/// level that it has.
pub proof fn law_events_reach_the_host(
    visitor: MessageVisitor,
    level: SubscriberLevel,
    target: &str,
    clock: Option<(u64, u32)>,
    request: TraceRequest,
    sent: Notification,
)
    requires
        call_ensures(on_event, (visitor, level, target, clock), request),
        call_ensures(notification, (request,), sent),
    ensures
        sent.message@ == encode_utf8(visitor.message@),
        sent.target matches Some(from) && from@ == encode_utf8(target@),
        sent.fields is Some <==> visitor.fields@.len() > 0,
        sent.fields matches Some(fields) ==> fields@ == encode_utf8(visitor.fields@),
        sent.name is None,
        sent.activity_id is None && sent.related_activity_id is None && sent.correlation_id is None,
        sent.log_type is Event,
        sent.level is Error <==> level is Error,
        sent.level is Warning <==> level is Warn,
        sent.level is Information <==> level is Info,
        clock is None ==> sent.timestamp == 0,
        clock matches Some(since) ==> since.0 < 0x2_0000_0000 ==> sent.timestamp == since.0
            * 1_000_000_000 + since.1,
{
    if let Some(since) = clock {
        crate::agent_laws::law_timestamp_counts_nanoseconds(since.0, since.1);
    }
}

/// The agent is called with the VM id, the name and the report that the caller
/// gave, and with the endorsement that was fetched, if one was. It can be called
/// with the whole report, once an endorsement was looked for or, without a name,
/// was not.
pub proof fn law_agent_call_is_the_callers(
    request: AttestRequest,
    invocation: AttestInvocation,
    report: &[u8],
    fetched: Option<Result<Vec<u8>, WmiError>>,
    call: AgentCall<'_>,
)
    requires
        invokes(request, invocation),
        report@.len() == request.report_size,
        fetched is Some <==> request.vm_name is Some && request.vm_name->0@.len() > 0,
        call_ensures(AttestInvocation::agent_call, (invocation, report, fetched), call),
    ensures
        call_requires(AttestInvocation::agent_call, (invocation, report, fetched)),
        call.report@ == report@,
        call.vm_id == request.vm_id,
        request.vm_name matches Some(name) ==> call.vm_name@ == name@,
        request.vm_name is None ==> call.vm_name@.len() == 0,
        fetched matches Some(Ok(bytes)) ==> call.endorsement == Some(bytes),
        !(fetched matches Some(Ok(_))) ==> call.endorsement is None,
{
}

/// A name in the caller's memory is read up to its terminator, and what is read
/// spells exactly the code units before it.
pub proof fn law_names_are_read_to_the_terminator(
    memory: &[u16],
    c: char,
    end: int,
    text: Option<String>,
)
    requires
        call_ensures(read_utf16, (Some(memory),), text),
        0 <= end < 1024,
        end < memory@.len(),
        memory@[end] == 0,
        forall|i: int| 0 <= i < end ==> #[trigger] memory@[i] != 0,
    ensures
        text matches Some(read) ==> utf16_text(memory@.take(end)) == Some(read@),
        text is None ==> utf16_text(memory@.take(end)) is None,
        memory@.take(end) == units_of(c) ==> (text matches Some(read) && read@ == seq![c]),
        end == 0 ==> (text matches Some(read) && read@.len() == 0),
{
    law_name_ends_at_the_terminator(memory@);
    let name = name_units(memory@);
    assert(name.len() == end) by {
        if name.len() > end {
            assert(name[end] == memory@[end]);
        }
    }
    assert(name =~= memory@.take(end));
    law_utf16_spells_each_character(c, Seq::empty());
    assert(units_of(c) + Seq::empty() =~= units_of(c));
    assert(seq![c] + Seq::<char>::empty() =~= seq![c]);
    if end == 0 {
        assert(name =~= Seq::empty());
    }
}

/// A variable that is set is taken as it is, and only one that is not is looked
/// for under its old name.
pub proof fn law_set_variables_win(name: &str, value: String, rest: Seq<char>, lookup: EnvLookup)
    ensures
        call_ensures(legacy_openvmm_env, (name, Some(value)), lookup) ==> lookup
            == EnvLookup::Found(value),
        call_ensures(legacy_openvmm_env, (name, None), lookup) ==> lookup is TryLegacy,
        call_ensures(legacy_openvmm_env, (name, None), lookup) && name@ == "OPENVMM_"@ + rest
            ==> lookup->TryLegacy_0@ == "HVLITE_"@ + rest,
{
    crate::agent_laws::law_legacy_names(name@, rest);
}

/// The backend starts with the filters that are set, each from its own
/// variable, and takes requests exactly if the channel opened.
pub proof fn law_backend_starts_with_its_filters(
    log: Option<String>,
    perf_trace: Option<String>,
    channel_opened: bool,
    start: BackendStart,
    request: TraceRequest,
)
    requires
        call_ensures(init_tracing_backend, (log, perf_trace, channel_opened), start),
    ensures
        log matches Some(filter) ==> start.trace_filter@ == filter@,
        log is None ==> start.trace_filter@ == "info"@,
        perf_trace matches Some(filter) ==> start.perf_trace_filter@ == filter@,
        perf_trace is None ==> start.perf_trace_filter@ == "off"@,
        start.task.spec_accepts(BackendInput::Trace(request)) <==> channel_opened,
{
}

/// A conversation that is started and advanced is one that [`held`] describes,
/// so its calls are linked as there.
pub proof fn law_sessions_hold_a_conversation(
    vm_name: &str,
    begun: (CorimSession, WmiCall),
    sessions: Seq<CorimSession>,
    calls: Seq<WmiCall>,
    outcomes: Seq<Result<WmiReply, WmiError>>,
    outcome: Result<WmiReply, WmiError>,
    next: CorimSession,
    call: WmiCall,
)
    ensures
        call_ensures(CorimSession::new, (vm_name,), begun) ==> held(
            vm_name@,
            seq![begun.0],
            seq![begun.1],
            Seq::empty(),
        ),
        held(vm_name@, sessions, calls, outcomes) && call_ensures(
            CorimSession::advance,
            (sessions.last(), outcome),
            CorimStep::Call(next, call),
        ) ==> held(vm_name@, sessions.push(next), calls.push(call), outcomes.push(outcome)),
{
    if held(vm_name@, sessions, calls, outcomes) && call_ensures(
        CorimSession::advance,
        (sessions.last(), outcome),
        CorimStep::Call(next, call),
    ) {
        let more = outcomes.push(outcome);
        assert forall|i: int| 0 <= i < more.len() implies #[trigger] crate::host_laws::goes_on(
            sessions.push(next),
            calls.push(call),
            more,
            i,
        ) by {
            if i < outcomes.len() {
                assert(crate::host_laws::goes_on(sessions, calls, outcomes, i));
            }
        }
    }
}

} // verus!
