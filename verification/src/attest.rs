//! The host's attestation RPC: what the caller of `RpcIGVmAttest` gets.

use crate::hresult::{E_FAIL, E_INVALIDARG, E_OUTOFMEMORY, E_POINTER, HRESULT, S_OK};
use crate::wmi::WmiError;
use vstd::prelude::*;

verus! {

/// What the handler knows of a call before it looks at any buffer.
pub struct AttestRequest {
    /// The VM id, if the caller gave one.
    pub vm_id: Option<[u8; 16]>,
    /// The VM name, if the caller gave a readable one.
    pub vm_name: Option<String>,
    pub report_size: u32,
    /// Whether the report pointer is not null.
    pub report_present: bool,
    pub response_buffer_size: u32,
    /// Whether the response pointer is not null.
    pub response_present: bool,
}

/// What is known of the call of the attestation agent before it is made.
pub struct AttestInvocation {
    /// The VM id, if the caller gave one.
    pub vm_id: Option<[u8; 16]>,
    /// The VM name, empty if there is none.
    pub vm_name: String,
    /// How many bytes to read from the report pointer.
    pub report_len: usize,
    /// Whether to look for a CoRIM endorsement of the VM first.
    pub fetch_endorsement: bool,
}

/// What the attestation agent is called with.
pub struct AgentCall<'a> {
    pub vm_id: Option<[u8; 16]>,
    pub vm_name: String,
    pub report: &'a [u8],
    pub endorsement: Option<Vec<u8>>,
}

/// How the call ends.
pub struct AttestReply {
    pub status: HRESULT,
    /// The bytes to copy to the response pointer.
    pub response: Vec<u8>,
}

/// The call ends with `status` and nothing is copied.
pub open spec fn refuses(reply: AttestReply, status: HRESULT) -> bool {
    reply.status == status && reply.response@.len() == 0
}

/// Stores a response size through a pointer, of which `slot` is the target
/// and which is null if that is `None`.
pub fn write_response_size(slot: &mut Option<u32>, value: u32) -> (stored: Result<(), HRESULT>)
    ensures
        *old(slot) is None ==> stored == Err::<(), HRESULT>(E_POINTER) && *final(slot) == *old(slot),
        *old(slot) is Some ==> stored == Ok::<(), HRESULT>(()) && *final(slot) == Some(value),
{
    if slot.is_none() {
        return Err(E_POINTER);
    }
    *slot = Some(value);
    Ok(())
}

impl AttestRequest {
    /// Whether the caller announces a report that is not there.
    pub open spec fn report_missing(self) -> bool {
        self.report_size > 0 && !self.report_present
    }

    /// The name that is handed on.
    pub open spec fn name(self) -> Seq<char> {
        match self.vm_name {
            Some(name) => name@,
            None => Seq::empty(),
        }
    }

    /// The size that is reported for a payload of `len` bytes.
    pub open spec fn reported_size(len: nat) -> nat {
        len % 0x1_0000_0000
    }

    /// Whether a payload of `len` bytes would be copied past the end of the
    /// response buffer. Only a payload of four gigabytes or more can be.
    pub open spec fn overruns(self, len: nat) -> bool {
        &&& 0 < Self::reported_size(len) <= self.response_buffer_size
        &&& self.response_present
        &&& len > self.response_buffer_size
    }

    /// Whether a payload of `len` bytes [overruns](Self::overruns) the buffer.
    pub fn is_overrun(&self, len: usize) -> (overrun: bool)
        ensures
            overrun == self.overruns(len as nat),
    {
        let size: u64 = len as u64 % 0x1_0000_0000;
        0 < size && size <= self.response_buffer_size as u64 && self.response_present && len as u64
            > self.response_buffer_size as u64
    }

    /// Ends the call with what the agent produced.
    pub fn finish<E>(
        &self,
        response_size: &mut Option<u32>,
        processed: Result<Vec<u8>, E>,
    ) -> (reply: AttestReply)
        requires
            processed is Ok ==> !self.overruns(processed->Ok_0@.len()),
        ensures
            finishes(*self, processed, *old(response_size), reply, *final(response_size)),
    {
        let payload = match processed {
            Ok(payload) => payload,
            Err(_) => return AttestReply { status: E_FAIL, response: Vec::new() },
        };
        let len: u64 = payload.len() as u64;
        let payload_len: u32 = (len % 0x1_0000_0000) as u32;
        if payload_len > self.response_buffer_size {
            return AttestReply { status: E_OUTOFMEMORY, response: Vec::new() };
        }
        let response = if payload_len > 0 {
            if !self.response_present {
                return AttestReply { status: E_INVALIDARG, response: Vec::new() };
            }
            payload
        } else {
            Vec::new()
        };
        assert(payload_len == 0 ==> response@ =~= Seq::empty());
        match write_response_size(response_size, payload_len) {
            Ok(_) => AttestReply { status: S_OK, response },
            Err(status) => AttestReply { status, response },
        }
    }
}

/// Whether a call ends with `reply` and the response size `after` once the
/// agent has produced `processed`, where `before` was the response size.
pub open spec fn finishes<E>(
    request: AttestRequest,
    processed: Result<Vec<u8>, E>,
    before: Option<u32>,
    reply: AttestReply,
    after: Option<u32>,
) -> bool {
    match processed {
        Err(_) => refuses(reply, E_FAIL) && after == before,
        Ok(payload) => {
            let size = AttestRequest::reported_size(payload@.len());
            if size > request.response_buffer_size {
                refuses(reply, E_OUTOFMEMORY) && after == before
            } else if size > 0 && !request.response_present {
                refuses(reply, E_INVALIDARG) && after == before
            } else {
                &&& reply.response@ == (if size > 0 {
                    payload@
                } else {
                    Seq::empty()
                })
                &&& match before {
                    Some(_) => reply.status == S_OK && after == Some(size as u32),
                    None => reply.status == E_POINTER && after is None,
                }
            }
        },
    }
}

/// Whether clearing the response size leaves `after` of `before`.
pub open spec fn clears(before: Option<u32>, after: Option<u32>) -> bool {
    match before {
        Some(_) => after == Some(0u32),
        None => after is None,
    }
}

/// Whether `invocation` is what `request` asks the agent for.
pub open spec fn invokes(request: AttestRequest, invocation: AttestInvocation) -> bool {
    &&& invocation.vm_id == request.vm_id
    &&& invocation.vm_name@ == request.name()
    &&& invocation.report_len == request.report_size
    &&& invocation.fetch_endorsement == (request.name().len() > 0)
}

/// Services an attestation request up to the call of the agent: clears the
/// response size and finds out what to call the agent with. The call goes on
/// with [`AttestRequest::finish`].
pub fn rpc_igvm_attest(request: &AttestRequest, response_size: &mut Option<u32>) -> (begun: Result<
    AttestInvocation,
    HRESULT,
>)
    ensures
        clears(*old(response_size), *final(response_size)),
        match begun {
            Err(status) => if *old(response_size) is None {
                status == E_POINTER
            } else {
                status == E_INVALIDARG && request.report_missing()
            },
            Ok(invocation) => *old(response_size) is Some && !request.report_missing() && invokes(
                *request,
                invocation,
            ),
        },
{
    match write_response_size(response_size, 0) {
        Ok(_) => {},
        Err(status) => return Err(status),
    }
    if request.report_size > 0 && !request.report_present {
        return Err(E_INVALIDARG);
    }
    let vm_name = match &request.vm_name {
        Some(name) => name.clone(),
        None => String::new(),
    };
    let fetch_endorsement = !vm_name.as_str().is_empty();
    Ok(
        AttestInvocation {
            vm_id: request.vm_id,
            vm_name,
            report_len: request.report_size as usize,
            fetch_endorsement,
        },
    )
}

/// The endorsement to hand to the agent, where `fetched` is what came of
/// looking for one, if that was done.
pub open spec fn handed_on(fetched: Option<Result<Vec<u8>, WmiError>>) -> Option<Vec<u8>> {
    match fetched {
        Some(Ok(bytes)) => Some(bytes),
        _ => None,
    }
}

impl AttestInvocation {
    /// The call of the agent, with the bytes of the report and what came of
    /// looking for an endorsement. Fetching one is best effort: a host that
    /// cannot tell one does not spoil the attestation.
    pub fn agent_call<'a>(
        self,
        report: &'a [u8],
        fetched: Option<Result<Vec<u8>, WmiError>>,
    ) -> (call: AgentCall<'a>)
        requires
            report@.len() == self.report_len,
            fetched is Some <==> self.fetch_endorsement,
        ensures
            call.vm_id == self.vm_id,
            call.vm_name@ == self.vm_name@,
            call.report@ == report@,
            call.endorsement == handed_on(fetched),
    {
        let endorsement = match fetched {
            Some(Ok(bytes)) => Some(bytes),
            _ => None,
        };
        AgentCall { vm_id: self.vm_id, vm_name: self.vm_name, report, endorsement }
    }
}

/// The agent is called with the VM id, the name and the report of the caller.
/// It gets an endorsement exactly when the VM has a name and one could be
/// fetched for it, and without a name none is looked for.
pub proof fn law_agent_is_called_with_what_the_caller_gave(
    request: AttestRequest,
    invocation: AttestInvocation,
    report: Seq<u8>,
    fetched: Option<Result<Vec<u8>, WmiError>>,
    call: AgentCall<'_>,
)
    requires
        invokes(request, invocation),
        report.len() == invocation.report_len,
        fetched is Some <==> invocation.fetch_endorsement,
        call.vm_id == invocation.vm_id,
        call.vm_name@ == invocation.vm_name@,
        call.report@ == report,
        call.endorsement == handed_on(fetched),
    ensures
        call.vm_id == request.vm_id,
        call.vm_name@ == request.name(),
        call.report@.len() == request.report_size,
        fetched is Some <==> request.name().len() > 0,
        call.endorsement is Some <==> request.name().len() > 0 && fetched->0 is Ok,
        call.endorsement is Some ==> call.endorsement->0 == fetched->0->Ok_0,
{
}

/// Whatever becomes of a call, the caller finds a size that fits what was
/// copied to it: the length of the response on success, and zero with nothing
/// copied on failure.
pub proof fn law_reported_size_is_what_was_copied<E>(
    request: AttestRequest,
    at_entry: Option<u32>,
    cleared: Option<u32>,
    processed: Result<Vec<u8>, E>,
    reply: AttestReply,
    at_exit: Option<u32>,
)
    requires
        at_entry is Some,
        clears(at_entry, cleared),
        processed is Ok ==> !request.overruns(processed->Ok_0@.len()),
        finishes(request, processed, cleared, reply, at_exit),
    ensures
        at_exit is Some,
        at_exit->0 == reply.response@.len(),
        reply.response@.len() <= request.response_buffer_size,
        reply.status != S_OK ==> at_exit == Some(0u32),
{
}

/// A payload that fits the response buffer arrives whole.
pub proof fn law_fitting_payload_arrives<E>(
    request: AttestRequest,
    at_entry: Option<u32>,
    cleared: Option<u32>,
    payload: Vec<u8>,
    reply: AttestReply,
    at_exit: Option<u32>,
)
    requires
        at_entry is Some,
        clears(at_entry, cleared),
        request.response_present,
        payload@.len() <= request.response_buffer_size,
        finishes(request, Ok::<Vec<u8>, E>(payload), cleared, reply, at_exit),
    ensures
        reply.status == S_OK,
        reply.response@ == payload@,
        at_exit is Some,
        at_exit->0 == payload@.len(),
{
    assert(payload@.len() == 0 ==> reply.response@ =~= payload@);
}

} // verus!
