//! What the broker and its client do, told by the requests, answers and
//! replies that go in and come out.

use crate::broker::{
    guarded_write_run, spec_after_write, spec_broker_error, spec_process_message, spec_reply,
    BrokerAction, BrokerFileId, BrokerInput, BrokerPhase, BrokerProgress, FileId, FinalFlush,
    GuardedWrite, GuardedWriteStep, RemoteError, StoreCall, StoreEffect, VmgsBrokerError,
    VmgsBrokerRpc, VmgsError, WriteThenFlushStep,
};
use crate::client::{spec_client_error, ChannelError, RpcError, VmgsClientError};
use vstd::prelude::*;

verus! {

/// A task that waits makes the store call that a request names, of the same
/// kind, for the same file and with the same data: a plain write stays plain
/// and an encrypted write stays encrypted.
pub proof fn law_task_makes_the_call_that_was_asked_for(
    progress: BrokerProgress,
    file_id: BrokerFileId,
    data: Vec<u8>,
)
    requires
        progress.phase == BrokerPhase::Receiving,
    ensures
        progress.spec_action(BrokerInput::Message(VmgsBrokerRpc::Inspect)) == BrokerAction::Call(
            StoreCall::Inspect,
        ),
        progress.spec_action(BrokerInput::Message(VmgsBrokerRpc::GetFileInfo(file_id)))
            == BrokerAction::Call(StoreCall::GetFileInfo(FileId(file_id.0))),
        progress.spec_action(BrokerInput::Message(VmgsBrokerRpc::ReadFile(file_id)))
            == BrokerAction::Call(StoreCall::ReadFile(FileId(file_id.0))),
        progress.spec_action(BrokerInput::Message(VmgsBrokerRpc::WriteFile(file_id, data)))
            == BrokerAction::Call(StoreCall::WriteFile(FileId(file_id.0), data)),
        progress.spec_action(BrokerInput::Message(VmgsBrokerRpc::WriteFileEncrypted(file_id, data)))
            == BrokerAction::Call(StoreCall::WriteFileEncrypted(FileId(file_id.0), data)),
        progress.spec_action(BrokerInput::Message(VmgsBrokerRpc::Save)) == BrokerAction::Call(
            StoreCall::Save,
        ),
        progress.spec_action(BrokerInput::Message(VmgsBrokerRpc::DeleteFile(file_id)))
            == BrokerAction::Call(StoreCall::DeleteFile(FileId(file_id.0))),
        progress.spec_action(BrokerInput::Message(VmgsBrokerRpc::ActiveEncryptionKey))
            == BrokerAction::Call(StoreCall::ActiveEncryptionKey),
{
}

/// Only a guarded write looks at the key before anything else; every other
/// request is one store call, and after it the task waits again.
pub proof fn law_plain_requests_are_one_call(progress: BrokerProgress, message: VmgsBrokerRpc)
    requires
        progress.phase == BrokerPhase::Receiving,
    ensures
        ({
            let asked = progress.spec_next(BrokerInput::Message(message));
            let guarded = message is WriteFileIfEncryptionKeyMatches;
            &&& progress.spec_accepts(BrokerInput::Message(message))
            &&& progress.spec_action(BrokerInput::Message(message)) is ReadActiveKey <==> guarded
            &&& progress.spec_action(BrokerInput::Message(message)) is Call <==> !guarded
            &&& guarded ==> asked.phase == BrokerPhase::ComparingKey
            &&& !guarded ==> asked.phase == BrokerPhase::Calling && asked.spec_accepts(
                BrokerInput::Answered,
            ) && asked.spec_action(BrokerInput::Answered) is Receive && asked.spec_next(
                BrokerInput::Answered,
            ).phase == BrokerPhase::Receiving
        }),
        progress.spec_accepts(BrokerInput::ClientsGone),
        progress.spec_action(BrokerInput::ClientsGone) is Return,
        progress.spec_next(BrokerInput::ClientsGone).phase == BrokerPhase::Returned,
{
}

/// In each phase the task learns what it waits for and nothing else.
pub proof fn law_task_learns_what_it_waits_for(progress: BrokerProgress, input: BrokerInput)
    requires
        progress.spec_accepts(input),
    ensures
        match progress.phase {
            BrokerPhase::Receiving => input is Message || input is ClientsGone,
            BrokerPhase::Calling => input is Answered,
            BrokerPhase::ComparingKey => input is ActiveKey,
            BrokerPhase::Writing => input is Written,
            BrokerPhase::Flushing => input is Flushed,
            BrokerPhase::Returned => false,
        },
{
}

/// A guarded write that the task has taken keeps its file, its data and its
/// expected key until the active key is known; it is then written exactly if
/// all 32 bytes of the two keys agree.
pub proof fn law_guarded_write_compares_every_byte(
    progress: BrokerProgress,
    file_id: BrokerFileId,
    data: Vec<u8>,
    expected_key: [u8; 32],
    active_key: [u8; 32],
    failure: VmgsError,
)
    requires
        progress.phase == BrokerPhase::Receiving,
    ensures
        ({
            let message = VmgsBrokerRpc::WriteFileIfEncryptionKeyMatches(
                file_id,
                data,
                expected_key,
            );
            let taken = progress.spec_next(BrokerInput::Message(message));
            let same = forall|i: int|
                0 <= i < 32 ==> #[trigger] active_key@[i] == expected_key@[i];
            let looked = BrokerInput::ActiveKey(Ok(active_key));
            let action = taken.spec_action(looked);
            &&& same ==> (action matches BrokerAction::Write(write) && write.file_id.0 == file_id.0
                && write.buf == data)
            &&& same ==> taken.spec_next(looked).phase == BrokerPhase::Writing
            &&& !same ==> action == BrokerAction::Reply(Ok(false))
            &&& !same ==> taken.spec_next(looked).phase == BrokerPhase::Receiving
            &&& taken.spec_action(BrokerInput::ActiveKey(Err(failure))) matches BrokerAction::Reply(
                reply,
            ) && reply is Err
        }),
{
    if forall|i: int| 0 <= i < 32 ==> #[trigger] active_key@[i] == expected_key@[i] {
        assert(active_key =~= expected_key);
    }
}

/// After the write comes the flush, and after the flush the reply: `true` only
/// if both worked, and otherwise the failure that came up.
pub proof fn law_write_then_flush_then_reply(
    progress: BrokerProgress,
    written: Result<(), VmgsError>,
    flushed: Result<(), VmgsError>,
)
    ensures
        progress.phase == BrokerPhase::Writing && written is Ok ==> progress.spec_action(
            BrokerInput::Written(written),
        ) is Flush && progress.spec_next(BrokerInput::Written(written)).phase
            == BrokerPhase::Flushing,
        progress.phase == BrokerPhase::Writing && written is Err ==> progress.spec_action(
            BrokerInput::Written(written),
        ) == BrokerAction::Reply(Err(spec_broker_error(written->Err_0))) && progress.spec_next(
            BrokerInput::Written(written),
        ).phase == BrokerPhase::Receiving,
        progress.phase == BrokerPhase::Flushing && flushed is Ok ==> progress.spec_action(
            BrokerInput::Flushed(flushed),
        ) == BrokerAction::Reply(Ok(true)),
        progress.phase == BrokerPhase::Flushing && flushed is Err ==> progress.spec_action(
            BrokerInput::Flushed(flushed),
        ) == BrokerAction::Reply(Err(spec_broker_error(flushed->Err_0))),
        progress.phase == BrokerPhase::Flushing ==> progress.spec_next(
            BrokerInput::Flushed(flushed),
        ).phase == BrokerPhase::Receiving,
{
}

/// The steps of a guarded write, taken by themselves, agree with what the task
/// does: the comparison covers every byte, and a failure keeps its words.
pub proof fn law_guarded_write_steps(
    request: GuardedWrite,
    active_key: [u8; 32],
    error: RemoteError,
)
    ensures
        ({
            let same = forall|i: int|
                0 <= i < 32 ==> #[trigger] active_key@[i] == request.expected_key@[i];
            let step = request.spec_active_key(Ok(active_key));
            &&& same ==> (step matches GuardedWriteStep::Write(write) && write.file_id
                == request.file_id && write.buf == request.buf)
            &&& !same ==> step == GuardedWriteStep::Reply(Ok(false))
        }),
        request.spec_active_key(Err(VmgsError::Other(error))) == GuardedWriteStep::Reply(
            Err(VmgsBrokerError::Other(error)),
        ),
        spec_after_write(Ok(())) is Flush,
        spec_after_write(Err(VmgsError::Other(error))) == WriteThenFlushStep::Reply(
            Err(VmgsBrokerError::Other(error)),
        ),
        (FinalFlush {  }).spec_flushed(Ok(())) == Ok::<bool, VmgsBrokerError>(true),
        (FinalFlush {  }).spec_flushed(Err(VmgsError::Other(error))) == Err::<
            bool,
            VmgsBrokerError,
        >(VmgsBrokerError::Other(error)),
{
    if forall|i: int| 0 <= i < 32 ==> #[trigger] active_key@[i] == request.expected_key@[i] {
        assert(active_key =~= request.expected_key);
    }
}

/// A guarded write never touches the store but by writing its own data to its
/// own file, and by flushing after that.
pub proof fn law_guarded_write_touches_its_own_file_only(
    request: GuardedWrite,
    active_key: Result<[u8; 32], VmgsError>,
    written: Result<(), VmgsError>,
    flushed: Result<(), VmgsError>,
)
    ensures
        ({
            let effects = guarded_write_run(request, active_key, written, flushed).0;
            &&& effects.len() <= 2
            &&& effects.len() > 0 ==> effects[0] == StoreEffect::Write(request.file_id, request.buf@)
            &&& effects.len() > 1 ==> effects[1] is Flush
            &&& effects.len() > 0 ==> active_key == Ok::<[u8; 32], VmgsError>(request.expected_key)
            &&& effects.len() > 1 <==> active_key == Ok::<[u8; 32], VmgsError>(request.expected_key)
                && written is Ok
        }),
{
}

/// A missing file is told as such, whichever it was; any other failure of the
/// store keeps its words; and a success keeps its value.
pub proof fn law_answers_become_replies<T>(value: T, file_id: FileId, error: RemoteError)
    ensures
        spec_reply(Ok::<T, VmgsError>(value)) == Ok::<T, VmgsBrokerError>(value),
        spec_reply(Err::<T, VmgsError>(VmgsError::FileInfoNotAllocated(file_id))) == Err::<
            T,
            VmgsBrokerError,
        >(VmgsBrokerError::FileInfoNotAllocated),
        spec_reply(Err::<T, VmgsError>(VmgsError::Other(error))) == Err::<T, VmgsBrokerError>(
            VmgsBrokerError::Other(error),
        ),
        spec_broker_error(VmgsError::FileInfoNotAllocated(file_id))
            == VmgsBrokerError::FileInfoNotAllocated,
        spec_broker_error(VmgsError::Other(error)) == VmgsBrokerError::Other(error),
        VmgsBrokerError::Other(error).spec_message() == error.message@,
{
}

/// To a client, what the broker answered is an error of the store, and a lost
/// channel a broker that is offline; neither loses what it says.
pub proof fn law_client_tells_the_two_failures_apart(
    error: VmgsBrokerError,
    channel: ChannelError,
)
    ensures
        spec_client_error(RpcError::Call(error)) == VmgsClientError::Vmgs(error),
        spec_client_error(RpcError::Channel(channel)) == VmgsClientError::BrokerOffline(channel),
{
}

/// What the task asks of the store for a request is of the request's kind.
pub proof fn law_requests_keep_their_kind(message: VmgsBrokerRpc)
    ensures
        match spec_process_message(message) {
            StoreCall::Inspect => message is Inspect,
            StoreCall::GetFileInfo(file) => message matches VmgsBrokerRpc::GetFileInfo(id) && id.0
                == file.0,
            StoreCall::ReadFile(file) => message matches VmgsBrokerRpc::ReadFile(id) && id.0
                == file.0,
            StoreCall::WriteFile(file, data) => message matches VmgsBrokerRpc::WriteFile(id, buf)
                && id.0 == file.0 && buf == data,
            StoreCall::WriteFileEncrypted(file, data) => message
                matches VmgsBrokerRpc::WriteFileEncrypted(id, buf) && id.0 == file.0 && buf == data,
            StoreCall::Save => message is Save,
            StoreCall::DeleteFile(file) => message matches VmgsBrokerRpc::DeleteFile(id) && id.0
                == file.0,
            StoreCall::ActiveEncryptionKey => message is ActiveEncryptionKey,
            StoreCall::GuardedWrite(write) => message
                matches VmgsBrokerRpc::WriteFileIfEncryptionKeyMatches(id, buf, key) && id.0
                == write.file_id.0 && buf == write.buf && key == write.expected_key,
        },
{
}

} // verus!
