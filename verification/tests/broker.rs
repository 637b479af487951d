use openhcl_reseal::broker::{
    reply, BrokerAction, BrokerFileId, BrokerInput, BrokerPhase, FileId, GuardedWriteStep, RemoteError, StoreCall, VmgsBrokerError,
    VmgsBrokerRpc, VmgsBrokerTask, VmgsError, VmgsFileInfo, WriteThenFlushStep,
};
use openhcl_reseal::client::{ChannelError, RpcError, VmgsClient, VmgsClientError};
use std::collections::BTreeMap;

const ATTEST: FileId = FileId(5);
const TPM_PPI: FileId = FileId(2);
const BIOS_NVRAM: FileId = FileId(1);

#[derive(Debug, PartialEq, Eq)]
enum Operation {
    Write(FileId),
    Flush,
}

/// A store in memory that records what is done to it.
#[derive(Default)]
struct Store {
    files: BTreeMap<u32, (Vec<u8>, bool)>,
    key: Option<[u8; 32]>,
    operations: Vec<Operation>,
    fail_flush: bool,
}

fn other(message: &str) -> VmgsError {
    VmgsError::Other(RemoteError {
        message: message.to_string(),
    })
}

impl Store {
    fn encrypted(key: [u8; 32]) -> Self {
        Store {
            key: Some(key),
            ..Default::default()
        }
    }

    fn get_file_info(&self, file: FileId) -> Result<VmgsFileInfo, VmgsError> {
        let (data, encrypted) = self
            .files
            .get(&file.0)
            .ok_or(VmgsError::FileInfoNotAllocated(file))?;
        Ok(VmgsFileInfo {
            allocated_bytes: 4096,
            valid_bytes: data.len() as u64,
            encrypted: *encrypted,
        })
    }

    fn read_file(&self, file: FileId) -> Result<Vec<u8>, VmgsError> {
        self.files
            .get(&file.0)
            .map(|(data, _)| data.clone())
            .ok_or(VmgsError::FileInfoNotAllocated(file))
    }

    fn write_file(&mut self, file: FileId, data: &[u8]) -> Result<(), VmgsError> {
        if self.files.get(&file.0).is_some_and(|(_, encrypted)| *encrypted) {
            return Err(other("cannot overwrite encrypted file with plaintext data"));
        }
        self.operations.push(Operation::Write(file));
        self.files.insert(file.0, (data.to_vec(), false));
        Ok(())
    }

    fn write_file_encrypted(&mut self, file: FileId, data: &[u8]) -> Result<(), VmgsError> {
        self.operations.push(Operation::Write(file));
        self.files
            .insert(file.0, (data.to_vec(), self.key.is_some()));
        Ok(())
    }

    fn delete_file(&mut self, file: FileId) -> Result<(), VmgsError> {
        self.files
            .remove(&file.0)
            .map(|_| ())
            .ok_or(VmgsError::FileInfoNotAllocated(file))
    }

    fn flush(&mut self) -> Result<(), VmgsError> {
        self.operations.push(Operation::Flush);
        if self.fail_flush {
            return Err(other("Error flushing the disk"));
        }
        Ok(())
    }

    fn active_encryption_key(&self) -> Result<[u8; 32], VmgsError> {
        self.key.ok_or_else(|| other("no active datastore key"))
    }
}

#[derive(Debug)]
enum Reply {
    Info(Result<VmgsFileInfo, VmgsBrokerError>),
    Data(Result<Vec<u8>, VmgsBrokerError>),
    Unit(Result<(), VmgsBrokerError>),
    Key(Result<[u8; 32], VmgsBrokerError>),
    Written(Result<bool, VmgsBrokerError>),
    Saved(usize),
    Nothing,
}

/// Serves one request.
fn serve(task: &mut VmgsBrokerTask<Store>, message: VmgsBrokerRpc) -> Reply {
    match task.process_message(message) {
        StoreCall::Inspect => Reply::Nothing,
        StoreCall::GetFileInfo(file) => Reply::Info(reply(task.vmgs.get_file_info(file))),
        StoreCall::ReadFile(file) => Reply::Data(reply(task.vmgs.read_file(file))),
        StoreCall::WriteFile(file, buf) => Reply::Unit(reply(task.vmgs.write_file(file, &buf))),
        StoreCall::WriteFileEncrypted(file, buf) => {
            Reply::Unit(reply(task.vmgs.write_file_encrypted(file, &buf)))
        }
        StoreCall::Save => Reply::Saved(task.vmgs.files.len()),
        StoreCall::DeleteFile(file) => Reply::Unit(reply(task.vmgs.delete_file(file))),
        StoreCall::ActiveEncryptionKey => Reply::Key(reply(task.vmgs.active_encryption_key())),
        StoreCall::GuardedWrite(write) => {
            let write = match write.active_key(task.vmgs.active_encryption_key()) {
                GuardedWriteStep::Reply(reply) => return Reply::Written(reply),
                GuardedWriteStep::Write(write) => write,
            };
            let written = task.vmgs.write_file(write.file_id, &write.buf);
            match write.written(written) {
                WriteThenFlushStep::Reply(reply) => Reply::Written(reply),
                WriteThenFlushStep::Flush(flush) => {
                    let flushed = task.vmgs.flush();
                    Reply::Written(flush.flushed(flushed))
                }
            }
        }
    }
}

fn called<T>(reply: Result<T, VmgsBrokerError>) -> Result<T, VmgsClientError> {
    VmgsClient {}.result(reply.map_err(RpcError::Call))
}

fn read(task: &mut VmgsBrokerTask<Store>, file: FileId) -> Result<Vec<u8>, VmgsClientError> {
    match serve(task, VmgsClient {}.read_file(file)) {
        Reply::Data(data) => called(data),
        other => panic!("{other:?}"),
    }
}

fn info(task: &mut VmgsBrokerTask<Store>, file: FileId) -> Result<VmgsFileInfo, VmgsClientError> {
    match serve(task, VmgsClient {}.get_file_info(file)) {
        Reply::Info(info) => called(info),
        other => panic!("{other:?}"),
    }
}

fn active_key(task: &mut VmgsBrokerTask<Store>) -> Result<[u8; 32], VmgsClientError> {
    match serve(task, VmgsClient {}.active_encryption_key()) {
        Reply::Key(key) => called(key),
        other => panic!("{other:?}"),
    }
}

fn guarded_write(
    task: &mut VmgsBrokerTask<Store>,
    file: FileId,
    data: &[u8],
    key: [u8; 32],
) -> Result<bool, VmgsClientError> {
    let request = VmgsClient {}.write_file_if_encryption_key_matches(file, data.to_vec(), key);
    match serve(task, request) {
        Reply::Written(written) => called(written),
        other => panic!("{other:?}"),
    }
}

#[test]
fn guarded_write_matches_and_flushes() {
    let key = [1; 32];
    let mut task = VmgsBrokerTask::new(Store::encrypted(key));
    assert!(active_key(&mut task).unwrap() == key);
    assert!(guarded_write(&mut task, ATTEST, b"sealed candidate", key).unwrap());
    assert_eq!(
        task.vmgs.operations,
        [Operation::Write(ATTEST), Operation::Flush]
    );
    // The guarded API writes plaintext even though the store is encrypted.
    assert!(!info(&mut task, ATTEST).unwrap().encrypted);
    assert!(active_key(&mut task).unwrap() == key);
    assert_eq!(read(&mut task, ATTEST).unwrap(), b"sealed candidate");
}

#[test]
fn guarded_write_mismatch_has_no_side_effects() {
    let key = [1; 32];
    let mut task = VmgsBrokerTask::new(Store::encrypted(key));
    task.vmgs.write_file(ATTEST, b"current candidate").unwrap();
    task.vmgs.operations.clear();
    // Exercise differences at both ends of the key and an empty key. None is
    // a matching prefix or a request to disable the guard.
    for index in [0, 31] {
        let mut stale_key = key;
        stale_key[index] ^= 1;
        assert!(!guarded_write(&mut task, ATTEST, b"stale", stale_key).unwrap());
    }
    assert!(!guarded_write(&mut task, TPM_PPI, b"stale", [0; 32]).unwrap());
    assert!(task.vmgs.operations.is_empty());
    assert_eq!(read(&mut task, ATTEST).unwrap(), b"current candidate");
    assert!(matches!(
        info(&mut task, TPM_PPI),
        Err(VmgsClientError::Vmgs(VmgsBrokerError::FileInfoNotAllocated))
    ));
    assert!(active_key(&mut task).unwrap() == key);
}

#[test]
fn guarded_write_rechecks_key_after_rotation() {
    let old_key = [1; 32];
    let new_key = [2; 32];
    let mut task = VmgsBrokerTask::new(Store::encrypted(old_key));
    let candidate_key = active_key(&mut task).unwrap();
    assert!(candidate_key == old_key);
    // Rotate after reading the key, before publishing its candidate.
    task.vmgs.key = Some(new_key);
    task.vmgs.write_file(ATTEST, b"new key candidate").unwrap();
    task.vmgs.operations.clear();
    assert!(!guarded_write(&mut task, ATTEST, b"old key candidate", candidate_key).unwrap());
    assert!(task.vmgs.operations.is_empty());
    assert_eq!(read(&mut task, ATTEST).unwrap(), b"new key candidate");
    assert!(guarded_write(&mut task, ATTEST, b"replacement candidate", new_key).unwrap());
    assert_eq!(read(&mut task, ATTEST).unwrap(), b"replacement candidate");
}

#[test]
fn guarded_write_rejects_plaintext_and_locked_stores() {
    let mut task = VmgsBrokerTask::new(Store::default());
    assert!(matches!(
        active_key(&mut task),
        Err(VmgsClientError::Vmgs(_))
    ));
    assert!(matches!(
        guarded_write(&mut task, ATTEST, &[1], [1; 32]),
        Err(VmgsClientError::Vmgs(_))
    ));
    assert!(task.vmgs.operations.is_empty());
}

#[test]
fn guarded_write_preserves_encrypted_file() {
    let key = [1; 32];
    let mut task = VmgsBrokerTask::new(Store::encrypted(key));
    let request = VmgsClient {}.write_file_encrypted(BIOS_NVRAM, b"protected".to_vec());
    assert!(matches!(serve(&mut task, request), Reply::Unit(Ok(()))));
    task.vmgs.operations.clear();
    assert!(matches!(
        guarded_write(&mut task, BIOS_NVRAM, b"plaintext", key),
        Err(VmgsClientError::Vmgs(_))
    ));
    assert!(task.vmgs.operations.is_empty());
    assert!(active_key(&mut task).unwrap() == key);
    assert!(info(&mut task, BIOS_NVRAM).unwrap().encrypted);
    assert_eq!(read(&mut task, BIOS_NVRAM).unwrap(), b"protected");
}

#[test]
fn guarded_write_propagates_final_flush_error() {
    let key = [1; 32];
    let mut task = VmgsBrokerTask::new(Store::encrypted(key));
    task.vmgs.fail_flush = true;
    let Err(VmgsClientError::Vmgs(VmgsBrokerError::Other(error))) =
        guarded_write(&mut task, ATTEST, b"candidate", key)
    else {
        panic!("final flush failure must be returned as a VMGS error");
    };
    assert!(error.message.contains("Error flushing the disk"));
    assert!(active_key(&mut task).unwrap() == key);
    // A flush failure is not a rollback: the write already completed.
    assert_eq!(read(&mut task, ATTEST).unwrap(), b"candidate");
}

fn step(task: &mut VmgsBrokerTask<Store>, input: BrokerInput) -> BrokerAction {
    assert!(task.accepts(&input));
    task.run(input)
}

#[test]
fn a_guarded_write_is_one_operation() {
    let key = [1; 32];
    let mut task = VmgsBrokerTask::new(Store::encrypted(key));
    let client = VmgsClient {};
    let guarded = || {
        BrokerInput::Message(client.write_file_if_encryption_key_matches(
            ATTEST,
            b"candidate".to_vec(),
            key,
        ))
    };
    let other = || BrokerInput::Message(client.read_file(ATTEST));
    assert!(matches!(
        step(&mut task, guarded()),
        BrokerAction::ReadActiveKey
    ));
    assert!(!task.accepts(&other()));
    assert!(!task.accepts(&BrokerInput::ClientsGone));
    assert!(!task.accepts(&BrokerInput::Flushed(Ok(()))));
    let BrokerAction::Write(write) = step(&mut task, BrokerInput::ActiveKey(Ok(key))) else {
        panic!("the key is active");
    };
    assert_eq!(write.file_id, ATTEST);
    assert_eq!(write.buf, b"candidate");
    assert!(!task.accepts(&other()));
    assert!(!task.accepts(&BrokerInput::ActiveKey(Ok(key))));
    assert!(matches!(
        step(&mut task, BrokerInput::Written(Ok(()))),
        BrokerAction::Flush
    ));
    assert!(!task.accepts(&other()));
    assert!(matches!(
        step(&mut task, BrokerInput::Flushed(Ok(()))),
        BrokerAction::Reply(Ok(true))
    ));
    assert!(task.accepts(&other()));

    step(&mut task, guarded());
    assert!(matches!(
        step(&mut task, BrokerInput::ActiveKey(Ok([2; 32]))),
        BrokerAction::Reply(Ok(false))
    ));
    step(&mut task, guarded());
    step(&mut task, BrokerInput::ActiveKey(Ok(key)));
    assert!(matches!(
        step(&mut task, BrokerInput::Written(Err(other_error()))),
        BrokerAction::Reply(Err(VmgsBrokerError::Other(_)))
    ));
    assert_eq!(task.progress.phase, BrokerPhase::Receiving);
}

fn other_error() -> VmgsError {
    other("torn")
}

#[test]
fn requests_are_served_one_at_a_time() {
    let mut task = VmgsBrokerTask::new(Store::default());
    let request = || BrokerInput::Message(VmgsClient {}.read_file(TPM_PPI));
    assert!(matches!(
        step(&mut task, request()),
        BrokerAction::Call(StoreCall::ReadFile(TPM_PPI))
    ));
    assert!(!task.accepts(&request()));
    assert!(matches!(
        step(&mut task, BrokerInput::Answered),
        BrokerAction::Receive
    ));
    assert!(matches!(
        step(&mut task, BrokerInput::ClientsGone),
        BrokerAction::Return
    ));
    assert!(!task.accepts(&request()));
}

#[test]
fn requests_reach_the_store_as_they_are() {
    let client = VmgsClient {};
    let mut task = VmgsBrokerTask::new(Store::default());
    assert!(matches!(
        serve(&mut task, client.write_file(ATTEST, b"plain".to_vec())),
        Reply::Unit(Ok(()))
    ));
    assert_eq!(read(&mut task, ATTEST).unwrap(), b"plain");
    assert_eq!(info(&mut task, ATTEST).unwrap().valid_bytes, 5);
    assert!(matches!(
        serve(&mut task, client.save()),
        Reply::Saved(1)
    ));
    assert!(matches!(
        serve(&mut task, client.delete_file(ATTEST)),
        Reply::Unit(Ok(()))
    ));
    assert!(matches!(
        serve(&mut task, client.delete_file(ATTEST)),
        Reply::Unit(Err(VmgsBrokerError::FileInfoNotAllocated))
    ));
    assert!(matches!(
        serve(&mut task, VmgsBrokerRpc::Inspect),
        Reply::Nothing
    ));
}

#[test]
fn file_ids_travel_unchanged() {
    assert_eq!(BrokerFileId::from(FileId(7)), BrokerFileId(7));
    assert_eq!(FileId::from(BrokerFileId(u32::MAX)), FileId(u32::MAX));
}

#[test]
fn errors_say_who_failed() {
    let client = VmgsClient {};
    let gone = || ChannelError {
        message: "gone".to_string(),
    };
    let offline = client.result::<()>(Err(RpcError::Channel(gone()))).unwrap_err();
    assert!(matches!(&offline, VmgsClientError::BrokerOffline(e) if e.message == "gone"));
    assert_eq!(offline.message(), "broker is offline");
    let failed = client
        .result::<()>(Err(RpcError::Call(VmgsBrokerError::FileInfoNotAllocated)))
        .unwrap_err();
    assert_eq!(failed.message(), "vmgs error");
    assert_eq!(client.saved::<u8>(Ok(3)).unwrap(), 3);
    assert!(matches!(
        client.saved::<u8>(Err(gone())),
        Err(VmgsClientError::BrokerOffline(_))
    ));
    assert_eq!(
        VmgsBrokerError::from(VmgsError::FileInfoNotAllocated(ATTEST)).message(),
        "no allocated bytes for file id being read"
    );
    assert_eq!(VmgsBrokerError::from(other("torn")).message(), "torn");
}
