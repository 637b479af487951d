//! The client side of the VMGS broker: what a caller asks for becomes a
//! request, and what comes back becomes the caller's result.

use crate::broker::{
    spec_process_message, BrokerFileId, FileId, GuardedWrite, StoreCall, VmgsBrokerError,
    VmgsBrokerRpc,
};
use vstd::prelude::*;
use vstd::std_specs::convert::FromSpecImpl;

verus! {

/// The channel to the broker is gone.
#[derive(Debug)]
pub struct ChannelError {
    pub message: String,
}

/// Why a call to the broker failed.
#[derive(Debug)]
pub enum RpcError<E> {
    /// The broker served the call and answered with an error.
    Call(E),
    /// The broker did not serve the call.
    Channel(ChannelError),
}

/// VMGS broker errors.
#[derive(Debug)]
#[non_exhaustive]
pub enum VmgsClientError {
    /// VMGS broker is offline
    BrokerOffline(ChannelError),
    /// VMGS error
    Vmgs(VmgsBrokerError),
}

impl VmgsClientError {
    /// The words of the message.
    pub open spec fn spec_message(self) -> Seq<char> {
        match self {
            VmgsClientError::BrokerOffline(_) => "broker is offline"@,
            VmgsClientError::Vmgs(_) => "vmgs error"@,
        }
    }

    /// What to tell a person.
    pub fn message(&self) -> (message: &'static str)
        ensures
            message@ == self.spec_message(),
    {
        match self {
            VmgsClientError::BrokerOffline(_) => "broker is offline",
            VmgsClientError::Vmgs(_) => "vmgs error",
        }
    }
}

impl From<ChannelError> for VmgsClientError {
    fn from(value: ChannelError) -> (error: Self) {
        VmgsClientError::BrokerOffline(value)
    }
}

impl FromSpecImpl<ChannelError> for VmgsClientError {
    open spec fn obeys_from_spec() -> bool {
        true
    }

    open spec fn from_spec(value: ChannelError) -> Self {
        VmgsClientError::BrokerOffline(value)
    }
}

impl From<RpcError<VmgsBrokerError>> for VmgsClientError {
    fn from(value: RpcError<VmgsBrokerError>) -> (error: Self) {
        match value {
            RpcError::Call(error) => VmgsClientError::Vmgs(error),
            RpcError::Channel(error) => VmgsClientError::BrokerOffline(error),
        }
    }
}

impl FromSpecImpl<RpcError<VmgsBrokerError>> for VmgsClientError {
    open spec fn obeys_from_spec() -> bool {
        true
    }

    open spec fn from_spec(value: RpcError<VmgsBrokerError>) -> Self {
        spec_client_error(value)
    }
}

/// What a failed call means to the client.
pub open spec fn spec_client_error(error: RpcError<VmgsBrokerError>) -> VmgsClientError {
    match error {
        RpcError::Call(error) => VmgsClientError::Vmgs(error),
        RpcError::Channel(error) => VmgsClientError::BrokerOffline(error),
    }
}

/// Client to interact with a backend-agnostic VMGS instance. Each method gives
/// the request to send; [`VmgsClient::result`] reads what came back.
#[derive(Clone, Copy, Debug)]
pub struct VmgsClient {}

impl VmgsClient {
    /// Get allocated and valid bytes from File Control Block for file_id.
    pub fn get_file_info(&self, file_id: FileId) -> (request: VmgsBrokerRpc)
        ensures
            request == VmgsBrokerRpc::GetFileInfo(BrokerFileId(file_id.0)),
    {
        VmgsBrokerRpc::GetFileInfo(BrokerFileId::from(file_id))
    }

    /// Reads the specified `file_id`.
    pub fn read_file(&self, file_id: FileId) -> (request: VmgsBrokerRpc)
        ensures
            request == VmgsBrokerRpc::ReadFile(BrokerFileId(file_id.0)),
    {
        VmgsBrokerRpc::ReadFile(BrokerFileId::from(file_id))
    }

    /// Writes `buf` to a file_id.
    ///
    /// It is an error to overwrite a previously encrypted file with plaintext
    /// data.
    pub fn write_file(&self, file_id: FileId, buf: Vec<u8>) -> (request: VmgsBrokerRpc)
        ensures
            request == VmgsBrokerRpc::WriteFile(BrokerFileId(file_id.0), buf),
    {
        VmgsBrokerRpc::WriteFile(BrokerFileId::from(file_id), buf)
    }

    /// Copies the active root encryption key of an unlocked VMGS.
    ///
    /// The key may become stale after the call; use
    /// [`Self::write_file_if_encryption_key_matches`] to publish data that
    /// depends on it.
    pub fn active_encryption_key(&self) -> (request: VmgsBrokerRpc)
        ensures
            request == VmgsBrokerRpc::ActiveEncryptionKey,
    {
        VmgsBrokerRpc::ActiveEncryptionKey
    }

    /// Writes plaintext `buf` only if `expected_key` is still the active root
    /// key. The comparison, write, and flush are one serial broker operation.
    pub fn write_file_if_encryption_key_matches(
        &self,
        file_id: FileId,
        buf: Vec<u8>,
        expected_key: [u8; 32],
    ) -> (request: VmgsBrokerRpc)
        ensures
            request == VmgsBrokerRpc::WriteFileIfEncryptionKeyMatches(
                BrokerFileId(file_id.0),
                buf,
                expected_key,
            ),
    {
        VmgsBrokerRpc::WriteFileIfEncryptionKeyMatches(
            BrokerFileId::from(file_id),
            buf,
            expected_key,
        )
    }

    /// Deletes the specified `file_id`.
    pub fn delete_file(&self, file_id: FileId) -> (request: VmgsBrokerRpc)
        ensures
            request == VmgsBrokerRpc::DeleteFile(BrokerFileId(file_id.0)),
    {
        VmgsBrokerRpc::DeleteFile(BrokerFileId::from(file_id))
    }

    /// If VMGS has been configured with encryption, encrypt + write `buf` to
    /// the specified `file_id`. Otherwise, perform a regular plaintext write
    /// instead.
    pub fn write_file_encrypted(&self, file_id: FileId, buf: Vec<u8>) -> (request: VmgsBrokerRpc)
        ensures
            request == VmgsBrokerRpc::WriteFileEncrypted(BrokerFileId(file_id.0), buf),
    {
        VmgsBrokerRpc::WriteFileEncrypted(BrokerFileId::from(file_id), buf)
    }

    /// Save the in-memory VMGS file metadata.
    pub fn save(&self) -> (request: VmgsBrokerRpc)
        ensures
            request == VmgsBrokerRpc::Save,
    {
        VmgsBrokerRpc::Save
    }

    /// The caller's result of a request that the broker may fail.
    pub fn result<T>(&self, returned: Result<T, RpcError<VmgsBrokerError>>) -> (result: Result<
        T,
        VmgsClientError,
    >)
        ensures
            result == (match returned {
                Ok(value) => Ok(value),
                Err(error) => Err(spec_client_error(error)),
            }),
    {
        match returned {
            Ok(value) => Ok(value),
            Err(error) => Err(VmgsClientError::from(error)),
        }
    }

    /// The caller's result of a save, which fails only with its channel.
    pub fn saved<T>(&self, returned: Result<T, ChannelError>) -> (result: Result<
        T,
        VmgsClientError,
    >)
        ensures
            result == (match returned {
                Ok(value) => Ok(value),
                Err(error) => Err(VmgsClientError::BrokerOffline(error)),
            }),
    {
        match returned {
            Ok(value) => Ok(value),
            Err(error) => Err(VmgsClientError::from(error)),
        }
    }
}

/// Whatever file, data and key a caller names, the store is asked for exactly
/// that file, data and key.
pub proof fn law_requests_reach_the_store(file_id: FileId, buf: Vec<u8>, key: [u8; 32])
    ensures
        spec_process_message(VmgsBrokerRpc::GetFileInfo(BrokerFileId(file_id.0)))
            == StoreCall::GetFileInfo(file_id),
        spec_process_message(VmgsBrokerRpc::ReadFile(BrokerFileId(file_id.0)))
            == StoreCall::ReadFile(file_id),
        spec_process_message(VmgsBrokerRpc::WriteFile(BrokerFileId(file_id.0), buf))
            == StoreCall::WriteFile(file_id, buf),
        spec_process_message(VmgsBrokerRpc::WriteFileEncrypted(BrokerFileId(file_id.0), buf))
            == StoreCall::WriteFileEncrypted(file_id, buf),
        spec_process_message(VmgsBrokerRpc::DeleteFile(BrokerFileId(file_id.0)))
            == StoreCall::DeleteFile(file_id),
        spec_process_message(VmgsBrokerRpc::ActiveEncryptionKey) == StoreCall::ActiveEncryptionKey,
        spec_process_message(VmgsBrokerRpc::Save) == StoreCall::Save,
        spec_process_message(
            VmgsBrokerRpc::WriteFileIfEncryptionKeyMatches(BrokerFileId(file_id.0), buf, key),
        ) == StoreCall::GuardedWrite(GuardedWrite { file_id, buf, expected_key: key }),
{
}

} // verus!
