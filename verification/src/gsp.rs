//! Guest state protection (GSP) requests, answered by a stand-in authority.
//!
//! The authority uses an identity cipher: a new cleartext seed is echoed back
//! as its own "encrypted" blob, and each stored blob is echoed back as the
//! seed it protects. That is consistent across boots because nobody else
//! produces or consumes these blobs.

use crate::hresult::{E_POINTER, HRESULT, RPC_S_SERVER_UNAVAILABLE};
use vstd::prelude::*;

verus! {

/// Capacity of a cleartext seed.
pub const GSP_MAX_CLEAR_SIZE: usize = 64;

/// Capacity of an encrypted seed.
pub const GSP_MAX_CIPHER_SIZE: usize = 512;

/// How many stored seeds a request carries.
pub const GSP_MAX_COUNT: usize = 2;

/// Asks the guest to refresh its TPM state.
pub const STATUS_FLAG_STATE_REFRESH_REQUEST: u32 = 0x1;

/// GSP clear text buffer.
#[derive(Clone, Copy, Debug)]
pub struct GspClear {
    pub length: u32,
    pub buffer: [u8; GSP_MAX_CLEAR_SIZE],
}

/// GSP encrypted buffer.
#[derive(Clone, Copy, Debug)]
pub struct GspCipher {
    pub length: u32,
    pub buffer: [u8; GSP_MAX_CIPHER_SIZE],
}

/// VM GSP request payload provided by the RPC caller.
#[derive(Clone, Copy, Debug)]
pub struct GspRequestInfo {
    pub new_gsp: GspClear,
    pub encrypted_gsp: [GspCipher; GSP_MAX_COUNT],
    pub supported_status_flags: u32,
}

/// VM GSP response.
#[derive(Clone, Copy, Debug)]
pub struct GspResponseInfo {
    pub encrypted_gsp: GspCipher,
    pub decrypted_gsp: [GspClear; GSP_MAX_COUNT],
    pub response_status_flags: u32,
}

/// How a GSP call ends.
pub enum GspOutcome {
    /// Raise this RPC exception; the host then handles GSP itself.
    Raise(i32),
    /// Return this failure and leave the response alone.
    Fail(HRESULT),
    /// Store this response and return success.
    Respond(GspResponseInfo),
}

/// The seed length that is honoured when a caller claims `claimed`.
pub open spec fn honoured_length(claimed: u32) -> nat {
    if claimed as nat <= GSP_MAX_CLEAR_SIZE {
        claimed as nat
    } else {
        GSP_MAX_CLEAR_SIZE as nat
    }
}

/// `target` starts with the first `len` bytes of `source` and is zero beyond.
pub open spec fn echoes(target: Seq<u8>, source: Seq<u8>, len: nat) -> bool {
    forall|i: int|
        0 <= i < target.len() ==> #[trigger] target[i] == (if i < len {
            source[i]
        } else {
            0u8
        })
}

/// `cipher` is what sealing `clear` gives.
pub open spec fn seals(cipher: GspCipher, clear: GspClear) -> bool {
    &&& cipher.length == honoured_length(clear.length)
    &&& echoes(cipher.buffer@, clear.buffer@, honoured_length(clear.length))
}

/// `clear` is what opening `cipher` gives.
pub open spec fn opens(clear: GspClear, cipher: GspCipher) -> bool {
    &&& clear.length == honoured_length(cipher.length)
    &&& echoes(clear.buffer@, cipher.buffer@, honoured_length(cipher.length))
}

/// `response` answers `request` and asks for a state refresh.
pub open spec fn answers(response: GspResponseInfo, request: GspRequestInfo) -> bool {
    &&& seals(response.encrypted_gsp, request.new_gsp)
    &&& forall|i: int|
        0 <= i < GSP_MAX_COUNT ==> opens(
            #[trigger] response.decrypted_gsp@[i],
            request.encrypted_gsp@[i],
        )
    &&& response.response_status_flags == STATUS_FLAG_STATE_REFRESH_REQUEST
}

fn seed_length(claimed: u32) -> (len: usize)
    ensures
        len == honoured_length(claimed),
{
    if claimed as usize <= GSP_MAX_CLEAR_SIZE {
        claimed as usize
    } else {
        GSP_MAX_CLEAR_SIZE
    }
}

/// "Encrypts" a new seed: the blob that the guest persists and replays.
pub fn seal_seed(clear: &GspClear) -> (cipher: GspCipher)
    ensures
        seals(cipher, *clear),
{
    let len: usize = seed_length(clear.length);
    let mut buffer: [u8; GSP_MAX_CIPHER_SIZE] = [0u8; GSP_MAX_CIPHER_SIZE];
    let mut at: usize = 0;
    while at < len
        invariant
            at <= len <= GSP_MAX_CLEAR_SIZE,
            echoes(buffer@, clear.buffer@, at as nat),
        decreases len - at,
    {
        buffer[at] = clear.buffer[at];
        at = at + 1;
    }
    GspCipher { length: len as u32, buffer }
}

/// "Decrypts" a stored blob back into its seed.
pub fn open_seed(cipher: &GspCipher) -> (clear: GspClear)
    ensures
        opens(clear, *cipher),
{
    let len: usize = seed_length(cipher.length);
    let mut buffer: [u8; GSP_MAX_CLEAR_SIZE] = [0u8; GSP_MAX_CLEAR_SIZE];
    let mut at: usize = 0;
    while at < len
        invariant
            at <= len <= GSP_MAX_CLEAR_SIZE,
            echoes(buffer@, cipher.buffer@, at as nat),
        decreases len - at,
    {
        buffer[at] = cipher.buffer[at];
        at = at + 1;
    }
    GspClear { length: len as u32, buffer }
}

/// What is worth reporting of a request: the claimed length of the new seed,
/// how many stored seeds are not empty, and the supported flags.
pub fn gsp_request_summary(request: Option<&GspRequestInfo>) -> (summary: (u32, usize, u32))
    ensures
        match request {
            Some(request) => summary.0 == request.new_gsp.length && summary.1
                == nonempty_count(request.encrypted_gsp@) && summary.2
                == request.supported_status_flags,
            None => summary == (0u32, 0usize, 0u32),
        },
{
    match request {
        Some(request) => {
            let mut count: usize = 0;
            let mut at: usize = 0;
            assert(request.encrypted_gsp@.take(0) =~= Seq::empty());
            while at < GSP_MAX_COUNT
                invariant
                    at <= GSP_MAX_COUNT,
                    count <= at,
                    count == nonempty_count(request.encrypted_gsp@.take(at as int)),
                decreases GSP_MAX_COUNT - at,
            {
                assert(request.encrypted_gsp@.take(at + 1).drop_last()
                    =~= request.encrypted_gsp@.take(at as int));
                if request.encrypted_gsp[at].length > 0 {
                    count = count + 1;
                }
                at = at + 1;
            }
            assert(request.encrypted_gsp@.take(2) =~= request.encrypted_gsp@);
            (request.new_gsp.length, count, request.supported_status_flags)
        },
        None => (0, 0, 0),
    }
}

/// How many of `ciphers` are not empty.
pub open spec fn nonempty_count(ciphers: Seq<GspCipher>) -> nat
    decreases ciphers.len(),
{
    if ciphers.len() == 0 {
        0
    } else {
        nonempty_count(ciphers.drop_last()) + (if ciphers.last().length > 0 {
            1nat
        } else {
            0
        })
    }
}

/// Services a GSP request.
///
/// `state_refresh` is whether the configuration of the calling VM wants a
/// state refresh, and `None` where the caller gave no VM id. Without a wish
/// for a refresh the call is refused, before any pointer is looked at.
pub fn rpc_vm_gsp_request(
    state_refresh: Option<bool>,
    request: Option<&GspRequestInfo>,
    response_present: bool,
) -> (outcome: GspOutcome)
    ensures
        match outcome {
            GspOutcome::Raise(code) => state_refresh != Some(true) && code
                == RPC_S_SERVER_UNAVAILABLE,
            GspOutcome::Fail(code) => state_refresh == Some(true) && (request is None
                || !response_present) && code == E_POINTER,
            GspOutcome::Respond(response) => state_refresh == Some(true) && response_present
                && request is Some && answers(response, *request->0),
        },
{
    let wanted = match state_refresh {
        Some(wanted) => wanted,
        None => false,
    };
    if !wanted {
        return GspOutcome::Raise(RPC_S_SERVER_UNAVAILABLE);
    }
    match request {
        None => GspOutcome::Fail(E_POINTER),
        Some(request) => {
            if !response_present {
                return GspOutcome::Fail(E_POINTER);
            }
            let encrypted_gsp = seal_seed(&request.new_gsp);
            let first = open_seed(&request.encrypted_gsp[0]);
            let second = open_seed(&request.encrypted_gsp[1]);
            let response = GspResponseInfo {
                encrypted_gsp,
                decrypted_gsp: [first, second],
                response_status_flags: STATUS_FLAG_STATE_REFRESH_REQUEST,
            };
            assert(response.decrypted_gsp@[0] == first);
            assert(response.decrypted_gsp@[1] == second);
            GspOutcome::Respond(response)
        },
    }
}

/// A seed survives from boot to boot: replaying the blob of one response in
/// the next request, in either slot, gives back the seed of the first request.
pub proof fn law_seed_survives_reboot(
    request: GspRequestInfo,
    response: GspResponseInfo,
    next_request: GspRequestInfo,
    next_response: GspResponseInfo,
    slot: int,
)
    requires
        answers(response, request),
        answers(next_response, next_request),
        0 <= slot < GSP_MAX_COUNT,
        next_request.encrypted_gsp@[slot] == response.encrypted_gsp,
    ensures
        next_response.decrypted_gsp@[slot].length == honoured_length(request.new_gsp.length),
        echoes(
            next_response.decrypted_gsp@[slot].buffer@,
            request.new_gsp.buffer@,
            honoured_length(request.new_gsp.length),
        ),
{
    let clear = next_response.decrypted_gsp@[slot];
    assert(opens(clear, response.encrypted_gsp));
    assert forall|i: int| 0 <= i < clear.buffer@.len() implies #[trigger] clear.buffer@[i] == (if i
        < honoured_length(request.new_gsp.length) {
        request.new_gsp.buffer@[i]
    } else {
        0u8
    }) by {
        assert(response.encrypted_gsp.buffer@[i] == response.encrypted_gsp.buffer@[i]);
    }
}

/// A response carries an encrypted seed exactly when the request brought one,
/// so GSP counts as available whenever a seed was offered.
pub proof fn law_offered_seed_is_available(request: GspRequestInfo, response: GspResponseInfo)
    requires
        answers(response, request),
    ensures
        response.encrypted_gsp.length == 0 <==> request.new_gsp.length == 0,
{
}

} // verus!
