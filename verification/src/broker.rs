//! The VMGS broker: it processes requests to the guest state store one at a
//! time, and turns the answers of the store into replies.

use vstd::prelude::*;
use vstd::std_specs::convert::FromSpecImpl;

verus! {

/// A file of the store.
#[derive(Clone, Copy, Debug, PartialEq, Eq, Structural)]
pub struct FileId(pub u32);

/// A file of the store, as it travels in a request.
#[derive(Clone, Copy, Debug, PartialEq, Eq, Structural)]
pub struct BrokerFileId(pub u32);

impl From<FileId> for BrokerFileId {
    fn from(value: FileId) -> (id: Self) {
        BrokerFileId(value.0)
    }
}

impl FromSpecImpl<FileId> for BrokerFileId {
    open spec fn obeys_from_spec() -> bool {
        true
    }

    open spec fn from_spec(value: FileId) -> Self {
        BrokerFileId(value.0)
    }
}

impl From<BrokerFileId> for FileId {
    fn from(value: BrokerFileId) -> (id: Self) {
        FileId(value.0)
    }
}

impl FromSpecImpl<BrokerFileId> for FileId {
    open spec fn obeys_from_spec() -> bool {
        true
    }

    open spec fn from_spec(value: BrokerFileId) -> Self {
        FileId(value.0)
    }
}

/// An error that crossed a process boundary: only its words are left.
#[derive(Debug)]
pub struct RemoteError {
    pub message: String,
}

/// A failure of the store.
#[derive(Debug)]
pub enum VmgsError {
    /// The file has no allocated bytes.
    FileInfoNotAllocated(FileId),
    /// Any other failure.
    Other(RemoteError),
}

/// An error returned by a broker operation.
#[derive(Debug)]
pub enum VmgsBrokerError {
    /// The requested file has no allocated bytes, that is, it does not exist.
    FileInfoNotAllocated,
    /// Another error of the store.
    Other(RemoteError),
}

impl VmgsBrokerError {
    /// The words of the message.
    pub open spec fn spec_message(self) -> Seq<char> {
        match self {
            VmgsBrokerError::FileInfoNotAllocated => "no allocated bytes for file id being read"@,
            VmgsBrokerError::Other(error) => error.message@,
        }
    }

    /// What to tell a person.
    pub fn message(&self) -> (message: &str)
        ensures
            message@ == self.spec_message(),
    {
        match self {
            VmgsBrokerError::FileInfoNotAllocated => "no allocated bytes for file id being read",
            VmgsBrokerError::Other(error) => error.message.as_str(),
        }
    }
}

impl From<VmgsError> for VmgsBrokerError {
    fn from(value: VmgsError) -> (error: Self) {
        match value {
            VmgsError::FileInfoNotAllocated(_) => VmgsBrokerError::FileInfoNotAllocated,
            VmgsError::Other(other) => VmgsBrokerError::Other(other),
        }
    }
}

impl FromSpecImpl<VmgsError> for VmgsBrokerError {
    open spec fn obeys_from_spec() -> bool {
        true
    }

    open spec fn from_spec(value: VmgsError) -> Self {
        spec_broker_error(value)
    }
}

/// What the broker tells a client of a failure of the store.
pub open spec fn spec_broker_error(error: VmgsError) -> VmgsBrokerError {
    match error {
        VmgsError::FileInfoNotAllocated(_) => VmgsBrokerError::FileInfoNotAllocated,
        VmgsError::Other(other) => VmgsBrokerError::Other(other),
    }
}

/// What the store knows of a file.
#[derive(Clone, Copy, Debug, PartialEq, Eq)]
pub struct VmgsFileInfo {
    pub allocated_bytes: u64,
    pub valid_bytes: u64,
    pub encrypted: bool,
}

/// A request to the broker. Some carry keys, so it has no `Debug`.
pub enum VmgsBrokerRpc {
    Inspect,
    GetFileInfo(BrokerFileId),
    ReadFile(BrokerFileId),
    WriteFile(BrokerFileId, Vec<u8>),
    WriteFileEncrypted(BrokerFileId, Vec<u8>),
    Save,
    DeleteFile(BrokerFileId),
    ActiveEncryptionKey,
    WriteFileIfEncryptionKeyMatches(BrokerFileId, Vec<u8>, [u8; 32]),
}

/// What the broker does with the store for a request. Unless it is said
/// otherwise, the answer of the store becomes the reply, by [`reply`].
pub enum StoreCall {
    /// Inspect the store; there is no reply.
    Inspect,
    GetFileInfo(FileId),
    ReadFile(FileId),
    WriteFile(FileId, Vec<u8>),
    WriteFileEncrypted(FileId, Vec<u8>),
    /// Save the metadata of the store, which cannot fail.
    Save,
    DeleteFile(FileId),
    /// Copy the active root key.
    ActiveEncryptionKey,
    /// Look at the active root key and hand it to [`GuardedWrite::active_key`].
    GuardedWrite(GuardedWrite),
}

/// What the task is in the middle of.
#[derive(Clone, Copy, Debug, PartialEq, Eq, Structural)]
pub enum BrokerPhase {
    /// It waits for a request.
    Receiving,
    /// It makes the store call of a request.
    Calling,
    /// It looks at the active key for a guarded write.
    ComparingKey,
    /// It makes that write.
    Writing,
    /// It makes that write durable.
    Flushing,
    /// It has returned.
    Returned,
}

/// How far the task has come with a request. It may hold a key, so it has no
/// `Debug`.
pub struct BrokerProgress {
    pub phase: BrokerPhase,
    /// The guarded write whose key is being compared.
    pub guarded: Option<GuardedWrite>,
}

/// What the task learns.
pub enum BrokerInput {
    /// A request came.
    Message(VmgsBrokerRpc),
    /// No request will come any more.
    ClientsGone,
    /// The store answered its call, and the answer was sent as the reply.
    Answered,
    /// The store told its active key.
    ActiveKey(Result<[u8; 32], VmgsError>),
    /// The write ended.
    Written(Result<(), VmgsError>),
    /// The flush ended.
    Flushed(Result<(), VmgsError>),
}

/// What the task does.
pub enum BrokerAction {
    /// Wait for the next request.
    Receive,
    /// Make this call and send the answer of the store as the reply.
    Call(StoreCall),
    /// Look at the active key of the store.
    ReadActiveKey,
    /// Write to the store.
    Write(WriteThenFlush),
    /// Flush the store.
    Flush,
    /// Send this reply and wait for the next request.
    Reply(Result<bool, VmgsBrokerError>),
    /// Return.
    Return,
}

/// The task that owns the store `V` and serves it.
pub struct VmgsBrokerTask<V> {
    pub vmgs: V,
    pub progress: BrokerProgress,
}

impl BrokerProgress {
    /// A task that waits for a request.
    pub open spec fn idle() -> Self {
        BrokerProgress { phase: BrokerPhase::Receiving, guarded: None }
    }

    /// Whether the task can learn this now.
    pub open spec fn spec_accepts(self, input: BrokerInput) -> bool {
        match input {
            BrokerInput::Message(_) | BrokerInput::ClientsGone => self.phase
                == BrokerPhase::Receiving,
            BrokerInput::Answered => self.phase == BrokerPhase::Calling,
            BrokerInput::ActiveKey(_) => self.phase == BrokerPhase::ComparingKey
                && self.guarded is Some,
            BrokerInput::Written(_) => self.phase == BrokerPhase::Writing,
            BrokerInput::Flushed(_) => self.phase == BrokerPhase::Flushing,
        }
    }

    /// How far the task has come after an input.
    pub open spec fn spec_next(self, input: BrokerInput) -> Self {
        match input {
            BrokerInput::Message(message) => match spec_process_message(message) {
                StoreCall::GuardedWrite(write) => BrokerProgress {
                    phase: BrokerPhase::ComparingKey,
                    guarded: Some(write),
                },
                _ => BrokerProgress { phase: BrokerPhase::Calling, guarded: None },
            },
            BrokerInput::ClientsGone => BrokerProgress {
                phase: BrokerPhase::Returned,
                guarded: None,
            },
            BrokerInput::Answered => Self::idle(),
            BrokerInput::ActiveKey(key) => match self.guarded->0.spec_active_key(key) {
                GuardedWriteStep::Reply(_) => Self::idle(),
                GuardedWriteStep::Write(_) => BrokerProgress {
                    phase: BrokerPhase::Writing,
                    guarded: None,
                },
            },
            BrokerInput::Written(written) => match spec_after_write(written) {
                WriteThenFlushStep::Reply(_) => Self::idle(),
                WriteThenFlushStep::Flush(_) => BrokerProgress {
                    phase: BrokerPhase::Flushing,
                    guarded: None,
                },
            },
            BrokerInput::Flushed(_) => Self::idle(),
        }
    }

    /// What an input makes the task do.
    pub open spec fn spec_action(self, input: BrokerInput) -> BrokerAction {
        match input {
            BrokerInput::Message(message) => match spec_process_message(message) {
                StoreCall::GuardedWrite(_) => BrokerAction::ReadActiveKey,
                call => BrokerAction::Call(call),
            },
            BrokerInput::ClientsGone => BrokerAction::Return,
            BrokerInput::Answered => BrokerAction::Receive,
            BrokerInput::ActiveKey(key) => match self.guarded->0.spec_active_key(key) {
                GuardedWriteStep::Reply(reply) => BrokerAction::Reply(reply),
                GuardedWriteStep::Write(write) => BrokerAction::Write(write),
            },
            BrokerInput::Written(written) => match spec_after_write(written) {
                WriteThenFlushStep::Reply(reply) => BrokerAction::Reply(reply),
                WriteThenFlushStep::Flush(_) => BrokerAction::Flush,
            },
            BrokerInput::Flushed(flushed) => BrokerAction::Reply(
                (FinalFlush {  }).spec_flushed(flushed),
            ),
        }
    }

    /// Whether the request at hand is done after an input.
    pub open spec fn spec_done(self, input: BrokerInput) -> bool {
        self.spec_action(input) is Receive || self.spec_action(input) is Reply
    }

    fn waiting_for_request() -> (progress: Self)
        ensures
            progress == Self::idle(),
    {
        BrokerProgress { phase: BrokerPhase::Receiving, guarded: None }
    }
}

/// The store call that a request asks for.
pub open spec fn spec_process_message(message: VmgsBrokerRpc) -> StoreCall {
    match message {
        VmgsBrokerRpc::Inspect => StoreCall::Inspect,
        VmgsBrokerRpc::GetFileInfo(file_id) => StoreCall::GetFileInfo(FileId(file_id.0)),
        VmgsBrokerRpc::ReadFile(file_id) => StoreCall::ReadFile(FileId(file_id.0)),
        VmgsBrokerRpc::WriteFile(file_id, buf) => StoreCall::WriteFile(FileId(file_id.0), buf),
        VmgsBrokerRpc::WriteFileEncrypted(file_id, buf) => StoreCall::WriteFileEncrypted(
            FileId(file_id.0),
            buf,
        ),
        VmgsBrokerRpc::Save => StoreCall::Save,
        VmgsBrokerRpc::DeleteFile(file_id) => StoreCall::DeleteFile(FileId(file_id.0)),
        VmgsBrokerRpc::ActiveEncryptionKey => StoreCall::ActiveEncryptionKey,
        VmgsBrokerRpc::WriteFileIfEncryptionKeyMatches(file_id, buf, expected_key) =>
            StoreCall::GuardedWrite(
            GuardedWrite { file_id: FileId(file_id.0), buf, expected_key },
        ),
    }
}

impl<V> VmgsBrokerTask<V> {
    /// Initialize the task with the store.
    pub fn new(vmgs: V) -> (task: VmgsBrokerTask<V>)
        ensures
            task.vmgs == vmgs,
            task.progress == BrokerProgress::idle(),
    {
        VmgsBrokerTask { vmgs, progress: BrokerProgress::waiting_for_request() }
    }

    /// Whether the task can learn this now.
    pub fn accepts(&self, input: &BrokerInput) -> (accepted: bool)
        ensures
            accepted == self.progress.spec_accepts(*input),
    {
        let phase = self.progress.phase;
        match input {
            BrokerInput::Message(_) | BrokerInput::ClientsGone => phase == BrokerPhase::Receiving,
            BrokerInput::Answered => phase == BrokerPhase::Calling,
            BrokerInput::ActiveKey(_) => phase == BrokerPhase::ComparingKey
                && self.progress.guarded.is_some(),
            BrokerInput::Written(_) => phase == BrokerPhase::Writing,
            BrokerInput::Flushed(_) => phase == BrokerPhase::Flushing,
        }
    }

    /// Goes on from one input to the next.
    pub fn run(&mut self, input: BrokerInput) -> (action: BrokerAction)
        requires
            old(self).progress.spec_accepts(input),
        ensures
            final(self).vmgs == old(self).vmgs,
            final(self).progress == old(self).progress.spec_next(input),
            action == old(self).progress.spec_action(input),
    {
        let guarded = self.progress.guarded.take();
        match input {
            BrokerInput::Message(message) => match self.process_message(message) {
                StoreCall::GuardedWrite(write) => {
                    self.progress = BrokerProgress {
                        phase: BrokerPhase::ComparingKey,
                        guarded: Some(write),
                    };
                    BrokerAction::ReadActiveKey
                },
                call => {
                    self.progress = BrokerProgress { phase: BrokerPhase::Calling, guarded: None };
                    BrokerAction::Call(call)
                },
            },
            BrokerInput::ClientsGone => {
                self.progress = BrokerProgress { phase: BrokerPhase::Returned, guarded: None };
                BrokerAction::Return
            },
            BrokerInput::Answered => {
                self.progress = BrokerProgress::waiting_for_request();
                BrokerAction::Receive
            },
            BrokerInput::ActiveKey(key) => match guarded.unwrap().active_key(key) {
                GuardedWriteStep::Reply(reply) => {
                    self.progress = BrokerProgress::waiting_for_request();
                    BrokerAction::Reply(reply)
                },
                GuardedWriteStep::Write(write) => {
                    self.progress = BrokerProgress { phase: BrokerPhase::Writing, guarded: None };
                    BrokerAction::Write(write)
                },
            },
            BrokerInput::Written(written) => match after_write(written) {
                WriteThenFlushStep::Reply(reply) => {
                    self.progress = BrokerProgress::waiting_for_request();
                    BrokerAction::Reply(reply)
                },
                WriteThenFlushStep::Flush(_) => {
                    self.progress = BrokerProgress { phase: BrokerPhase::Flushing, guarded: None };
                    BrokerAction::Flush
                },
            },
            BrokerInput::Flushed(flushed) => {
                self.progress = BrokerProgress::waiting_for_request();
                BrokerAction::Reply((FinalFlush {  }).flushed(flushed))
            },
        }
    }

    /// What a request asks of the store.
    pub fn process_message(&self, message: VmgsBrokerRpc) -> (call: StoreCall)
        ensures
            call == spec_process_message(message),
    {
        match message {
            VmgsBrokerRpc::Inspect => StoreCall::Inspect,
            VmgsBrokerRpc::GetFileInfo(file_id) => StoreCall::GetFileInfo(FileId::from(file_id)),
            VmgsBrokerRpc::ReadFile(file_id) => StoreCall::ReadFile(FileId::from(file_id)),
            VmgsBrokerRpc::WriteFile(file_id, buf) => StoreCall::WriteFile(
                FileId::from(file_id),
                buf,
            ),
            VmgsBrokerRpc::WriteFileEncrypted(file_id, buf) => StoreCall::WriteFileEncrypted(
                FileId::from(file_id),
                buf,
            ),
            VmgsBrokerRpc::Save => StoreCall::Save,
            VmgsBrokerRpc::DeleteFile(file_id) => StoreCall::DeleteFile(FileId::from(file_id)),
            VmgsBrokerRpc::ActiveEncryptionKey => StoreCall::ActiveEncryptionKey,
            VmgsBrokerRpc::WriteFileIfEncryptionKeyMatches(file_id, buf, expected_key) =>
                StoreCall::GuardedWrite(
                GuardedWrite { file_id: FileId::from(file_id), buf, expected_key },
            ),
        }
    }
}

/// The reply that an answer of the store becomes.
pub open spec fn spec_reply<T>(answer: Result<T, VmgsError>) -> Result<T, VmgsBrokerError> {
    match answer {
        Ok(value) => Ok(value),
        Err(error) => Err(spec_broker_error(error)),
    }
}

/// The reply that an answer of the store becomes.
pub fn reply<T>(answer: Result<T, VmgsError>) -> (reply: Result<T, VmgsBrokerError>)
    ensures
        reply == spec_reply(answer),
{
    match answer {
        Ok(value) => Ok(value),
        Err(error) => Err(VmgsBrokerError::from(error)),
    }
}

/// A plaintext write that happens only under the expected root key.
///
/// The comparison, the write and the final flush belong to one request, which
/// the broker finishes before it takes the next: nothing may change the active
/// key in between.
pub struct GuardedWrite {
    pub file_id: FileId,
    pub buf: Vec<u8>,
    pub expected_key: [u8; 32],
}

/// What follows the look at the active key.
pub enum GuardedWriteStep {
    /// Reply; the store is untouched.
    Reply(Result<bool, VmgsBrokerError>),
    /// Write to the store.
    Write(WriteThenFlush),
}

/// A guarded write whose key was found to be active.
pub struct WriteThenFlush {
    /// Write `buf` to this file.
    pub file_id: FileId,
    pub buf: Vec<u8>,
}

/// What follows the write.
pub enum WriteThenFlushStep {
    /// Reply with this error.
    Reply(Result<bool, VmgsBrokerError>),
    /// Flush the store.
    Flush(FinalFlush),
}

/// A guarded write that was made and is to become durable.
pub struct FinalFlush {}

impl GuardedWrite {
    /// What follows when the store tells its active key.
    pub open spec fn spec_active_key(self, active_key: Result<[u8; 32], VmgsError>) -> GuardedWriteStep {
        match active_key {
            Err(error) => GuardedWriteStep::Reply(Err(spec_broker_error(error))),
            Ok(key) => if key == self.expected_key {
                GuardedWriteStep::Write(WriteThenFlush { file_id: self.file_id, buf: self.buf })
            } else {
                GuardedWriteStep::Reply(Ok(false))
            },
        }
    }

    /// Goes on when the store has told its active key; a locked or plaintext
    /// store has none.
    pub fn active_key(self, active_key: Result<[u8; 32], VmgsError>) -> (step: GuardedWriteStep)
        ensures
            step == self.spec_active_key(active_key),
    {
        match active_key {
            Err(error) => GuardedWriteStep::Reply(Err(VmgsBrokerError::from(error))),
            Ok(key) => {
                assert(key@ == self.expected_key@ ==> key =~= self.expected_key);
                if !constant_time_eq::constant_time_eq_32(&key, &self.expected_key) {
                    return GuardedWriteStep::Reply(Ok(false));
                }
                GuardedWriteStep::Write(WriteThenFlush { file_id: self.file_id, buf: self.buf })
            },
        }
    }
}

/// What follows the write of a guarded write.
pub open spec fn spec_after_write(written: Result<(), VmgsError>) -> WriteThenFlushStep {
    match written {
        Ok(_) => WriteThenFlushStep::Flush(FinalFlush {  }),
        Err(error) => WriteThenFlushStep::Reply(Err(spec_broker_error(error))),
    }
}

fn after_write(written: Result<(), VmgsError>) -> (step: WriteThenFlushStep)
    ensures
        step == spec_after_write(written),
{
    match written {
        Ok(_) => WriteThenFlushStep::Flush(FinalFlush {  }),
        Err(error) => WriteThenFlushStep::Reply(Err(VmgsBrokerError::from(error))),
    }
}

impl WriteThenFlush {
    /// Goes on when the write has ended.
    pub fn written(self, written: Result<(), VmgsError>) -> (step: WriteThenFlushStep)
        ensures
            step == spec_after_write(written),
    {
        after_write(written)
    }
}

impl FinalFlush {
    /// The reply when the flush has ended.
    pub open spec fn spec_flushed(self, flushed: Result<(), VmgsError>) -> Result<
        bool,
        VmgsBrokerError,
    > {
        match flushed {
            Ok(_) => Ok(true),
            Err(error) => Err(spec_broker_error(error)),
        }
    }

    /// The reply when the flush has ended. A flush error does not roll back
    /// the completed write.
    pub fn flushed(self, flushed: Result<(), VmgsError>) -> (reply: Result<bool, VmgsBrokerError>)
        ensures
            reply == self.spec_flushed(flushed),
    {
        match flushed {
            Ok(_) => Ok(true),
            Err(error) => Err(VmgsBrokerError::from(error)),
        }
    }
}

/// What a guarded write does to the store, in order.
pub enum StoreEffect {
    Write(FileId, Seq<u8>),
    Flush,
}

/// The effects and the reply of a guarded write, where `active_key`, `written`
/// and `flushed` are the answers that the store gives if it is asked.
pub open spec fn guarded_write_run(
    request: GuardedWrite,
    active_key: Result<[u8; 32], VmgsError>,
    written: Result<(), VmgsError>,
    flushed: Result<(), VmgsError>,
) -> (Seq<StoreEffect>, Result<bool, VmgsBrokerError>) {
    match request.spec_active_key(active_key) {
        GuardedWriteStep::Reply(reply) => (Seq::empty(), reply),
        GuardedWriteStep::Write(write) => {
            let wrote = seq![StoreEffect::Write(write.file_id, write.buf@)];
            match spec_after_write(written) {
                WriteThenFlushStep::Reply(reply) => (wrote, reply),
                WriteThenFlushStep::Flush(flush) => (
                    wrote.push(StoreEffect::Flush),
                    flush.spec_flushed(flushed),
                ),
            }
        },
    }
}

/// A stale key is answered `false`, without writing or flushing.
pub proof fn law_stale_key_has_no_side_effects(
    request: GuardedWrite,
    active_key: [u8; 32],
    written: Result<(), VmgsError>,
    flushed: Result<(), VmgsError>,
)
    requires
        active_key != request.expected_key,
    ensures
        guarded_write_run(request, Ok(active_key), written, flushed) == (
            Seq::<StoreEffect>::empty(),
            Ok::<bool, VmgsBrokerError>(false),
        ),
{
}

/// A store without an active key answers with an error, untouched.
pub proof fn law_keyless_store_is_an_error_without_side_effects(
    request: GuardedWrite,
    error: VmgsError,
    written: Result<(), VmgsError>,
    flushed: Result<(), VmgsError>,
)
    ensures
        guarded_write_run(request, Err(error), written, flushed) == (
            Seq::<StoreEffect>::empty(),
            Err::<bool, VmgsBrokerError>(spec_broker_error(error)),
        ),
{
}

/// `true` is answered exactly when the expected key was active and both the
/// write and the final flush succeeded, in that order.
pub proof fn law_true_means_written_and_flushed(
    request: GuardedWrite,
    active_key: Result<[u8; 32], VmgsError>,
    written: Result<(), VmgsError>,
    flushed: Result<(), VmgsError>,
)
    ensures
        guarded_write_run(request, active_key, written, flushed).1 == Ok::<bool, VmgsBrokerError>(
            true,
        ) <==> active_key == Ok::<[u8; 32], VmgsError>(request.expected_key) && written is Ok
            && flushed is Ok,
        guarded_write_run(request, active_key, written, flushed).1 == Ok::<bool, VmgsBrokerError>(
            true,
        ) ==> guarded_write_run(request, active_key, written, flushed).0 == seq![
            StoreEffect::Write(request.file_id, request.buf@),
            StoreEffect::Flush,
        ],
{
    assert(seq![StoreEffect::Write(request.file_id, request.buf@)].push(StoreEffect::Flush)
        =~= seq![StoreEffect::Write(request.file_id, request.buf@), StoreEffect::Flush]);
}

/// A failing final flush is answered with its error although the write stays.
pub proof fn law_flush_error_keeps_the_write(
    request: GuardedWrite,
    written: Result<(), VmgsError>,
    error: VmgsError,
)
    requires
        written is Ok,
    ensures
        guarded_write_run(request, Ok(request.expected_key), written, Err(error)) == (
            seq![StoreEffect::Write(request.file_id, request.buf@), StoreEffect::Flush],
            Err::<bool, VmgsBrokerError>(spec_broker_error(error)),
        ),
{
    assert(seq![StoreEffect::Write(request.file_id, request.buf@)].push(StoreEffect::Flush)
        =~= seq![StoreEffect::Write(request.file_id, request.buf@), StoreEffect::Flush]);
}

/// How far a task that starts idle has come with `inputs`.
pub open spec fn progress_after(inputs: Seq<BrokerInput>) -> BrokerProgress
    decreases inputs.len(),
{
    if inputs.len() == 0 {
        BrokerProgress::idle()
    } else {
        progress_after(inputs.drop_last()).spec_next(inputs.last())
    }
}

/// Whether such a task can learn `inputs` in this order.
pub open spec fn possible(inputs: Seq<BrokerInput>) -> bool
    decreases inputs.len(),
{
    inputs.len() == 0 || (possible(inputs.drop_last()) && progress_after(
        inputs.drop_last(),
    ).spec_accepts(inputs.last()))
}

/// Whether the `i`-th of `inputs` ends a request.
pub open spec fn done_at(inputs: Seq<BrokerInput>, i: int) -> bool {
    progress_after(inputs.take(i)).spec_done(inputs[i])
}

proof fn lemma_prefix_is_possible(inputs: Seq<BrokerInput>, len: int)
    requires
        possible(inputs),
        0 <= len <= inputs.len(),
    ensures
        possible(inputs.take(len)),
    decreases inputs.len(),
{
    if len == inputs.len() {
        assert(inputs.take(len) =~= inputs);
    } else {
        lemma_prefix_is_possible(inputs.drop_last(), len);
        assert(inputs.drop_last().take(len) =~= inputs.take(len));
    }
}

/// A task whose last request is not done takes no other, nor does it return.
proof fn lemma_busy_until_done(inputs: Seq<BrokerInput>, request: int)
    requires
        possible(inputs),
        0 <= request < inputs.len(),
        inputs[request] is Message,
        forall|k: int| request < k < inputs.len() ==> !#[trigger] done_at(inputs, k),
    ensures
        progress_after(inputs).phase != BrokerPhase::Receiving,
        progress_after(inputs).phase != BrokerPhase::Returned,
    decreases inputs.len(),
{
    let front = inputs.drop_last();
    let last = inputs.len() - 1;
    if request < last {
        assert forall|k: int| request < k < front.len() implies !#[trigger] done_at(front, k) by {
            assert(front.take(k) =~= inputs.take(k));
            assert(front[k] == inputs[k]);
            assert(!done_at(inputs, k));
        }
        assert(front[request] == inputs[request]);
        lemma_busy_until_done(front, request);
        assert(!done_at(inputs, last));
        assert(inputs.take(last) =~= front);
    }
}

/// Requests are served one at a time: between two requests that the task takes,
/// the first is done. So nothing comes between the look at the key, the write
/// and the flush of a guarded write.
pub proof fn law_requests_are_served_one_at_a_time(
    inputs: Seq<BrokerInput>,
    first: int,
    second: int,
)
    requires
        possible(inputs),
        0 <= first < second < inputs.len(),
        inputs[first] is Message,
        inputs[second] is Message || inputs[second] is ClientsGone,
    ensures
        exists|k: int| first < k < second && #[trigger] done_at(inputs, k),
{
    let before = inputs.take(second);
    lemma_prefix_is_possible(inputs, second);
    lemma_prefix_is_possible(inputs, second + 1);
    assert(inputs.take(second + 1).drop_last() =~= before);
    assert(inputs.take(second + 1).last() == inputs[second]);
    if forall|k: int| first < k < second ==> !#[trigger] done_at(inputs, k) {
        assert forall|k: int| first < k < before.len() implies !#[trigger] done_at(before, k) by {
            assert(before.take(k) =~= inputs.take(k));
            assert(before[k] == inputs[k]);
            assert(!done_at(inputs, k));
        }
        assert(before[first] == inputs[first]);
        lemma_busy_until_done(before, first);
    }
}

/// A guarded write is one operation. Once the task has taken it, it learns
/// nothing but the active key, then how the write ended, then how the flush
/// ended, as far as it gets; what it replies is the reply of
/// [`guarded_write_run`].
pub proof fn law_guarded_write_is_one_operation(
    progress: BrokerProgress,
    file_id: BrokerFileId,
    buf: Vec<u8>,
    expected_key: [u8; 32],
    active_key: Result<[u8; 32], VmgsError>,
    written: Result<(), VmgsError>,
    flushed: Result<(), VmgsError>,
    other: BrokerInput,
)
    requires
        progress.phase == BrokerPhase::Receiving,
    ensures
        ({
            let message = BrokerInput::Message(
                VmgsBrokerRpc::WriteFileIfEncryptionKeyMatches(file_id, buf, expected_key),
            );
            let write = GuardedWrite { file_id: FileId(file_id.0), buf, expected_key };
            let reply = guarded_write_run(write, active_key, written, flushed).1;
            let looking = progress.spec_next(message);
            let looked = BrokerInput::ActiveKey(active_key);
            let writing = looking.spec_next(looked);
            let wrote = BrokerInput::Written(written);
            let flushing = writing.spec_next(wrote);
            let end = BrokerInput::Flushed(flushed);
            &&& progress.spec_action(message) is ReadActiveKey
            &&& looking.spec_accepts(looked)
            &&& looking.spec_accepts(other) ==> other is ActiveKey
            &&& match looking.spec_action(looked) {
                BrokerAction::Reply(replied) => replied == reply,
                BrokerAction::Write(write) => {
                    &&& write.file_id == FileId(file_id.0)
                    &&& write.buf == buf
                    &&& writing.spec_accepts(wrote)
                    &&& writing.spec_accepts(other) ==> other is Written
                    &&& match writing.spec_action(wrote) {
                        BrokerAction::Reply(replied) => replied == reply,
                        BrokerAction::Flush => {
                            &&& flushing.spec_accepts(end)
                            &&& flushing.spec_accepts(other) ==> other is Flushed
                            &&& flushing.spec_action(end) == BrokerAction::Reply(reply)
                            &&& flushing.spec_next(end) == BrokerProgress::idle()
                        },
                        _ => false,
                    }
                },
                _ => false,
            }
        }),
{
}

} // verus!
