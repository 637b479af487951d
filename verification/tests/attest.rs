use openhcl_reseal::attest::{rpc_igvm_attest, write_response_size, AttestRequest};
use openhcl_reseal::hresult::{
    format_hresult, E_FAIL, E_INVALIDARG, E_OUTOFMEMORY, E_POINTER, RPC_E_TOO_LATE,
    RPC_S_SERVER_UNAVAILABLE, S_OK,
};
use openhcl_reseal::wmi::WmiError;
use windows_sys::Win32::Foundation;
use windows_sys::Win32::System::Rpc;

fn request() -> AttestRequest {
    AttestRequest {
        vm_id: Some([9; 16]),
        vm_name: Some("vm".to_string()),
        report_size: 7,
        report_present: true,
        response_buffer_size: 4,
        response_present: true,
    }
}

#[test]
fn status_codes_are_those_of_windows() {
    assert_eq!(S_OK, Foundation::S_OK);
    assert_eq!(E_FAIL, Foundation::E_FAIL);
    assert_eq!(E_INVALIDARG, Foundation::E_INVALIDARG);
    assert_eq!(E_OUTOFMEMORY, Foundation::E_OUTOFMEMORY);
    assert_eq!(E_POINTER, Foundation::E_POINTER);
    assert_eq!(RPC_E_TOO_LATE, 0x80010119_u32 as i32);
    assert_eq!(RPC_S_SERVER_UNAVAILABLE, Rpc::RPC_S_SERVER_UNAVAILABLE);
}

#[test]
fn a_status_is_written_with_eight_digits() {
    assert_eq!(format_hresult(E_POINTER), "0x80004003");
    assert_eq!(format_hresult(0), "0x00000000");
    assert_eq!(format_hresult(-1), "0xffffffff");
    for status in [E_FAIL, E_INVALIDARG, E_OUTOFMEMORY, 1722, i32::MIN, i32::MAX] {
        assert_eq!(format_hresult(status), format!("{:#010x}", status as u32));
    }
}

#[test]
fn a_size_needs_a_place() {
    let mut slot = Some(5);
    assert_eq!(write_response_size(&mut slot, 9), Ok(()));
    assert_eq!(slot, Some(9));
    let mut null = None;
    assert_eq!(write_response_size(&mut null, 9), Err(E_POINTER));
    assert_eq!(null, None);
}

#[test]
fn a_call_clears_the_size_first() {
    let mut size = Some(5);
    let call = rpc_igvm_attest(&request(), &mut size).unwrap();
    assert_eq!(size, Some(0));
    assert_eq!(call.vm_name, "vm");
    assert_eq!(call.report_len, 7);
    assert!(call.fetch_endorsement);

    let mut null = None;
    assert_eq!(
        rpc_igvm_attest(&request(), &mut null).err(),
        Some(E_POINTER)
    );
}

#[test]
fn a_missing_report_is_an_invalid_argument() {
    let mut request = request();
    request.report_present = false;
    let mut size = Some(5);
    assert_eq!(
        rpc_igvm_attest(&request, &mut size).err(),
        Some(E_INVALIDARG)
    );
    assert_eq!(size, Some(0));
    request.report_size = 0;
    assert_eq!(rpc_igvm_attest(&request, &mut size).unwrap().report_len, 0);
}

#[test]
fn without_a_name_no_endorsement_is_fetched() {
    for vm_name in [None, Some(String::new())] {
        let request = AttestRequest {
            vm_name,
            ..request()
        };
        let call = rpc_igvm_attest(&request, &mut Some(0)).unwrap();
        assert_eq!(call.vm_name, "");
        assert!(!call.fetch_endorsement);
    }
}

#[test]
fn the_agent_gets_what_the_caller_gave() {
    let report = [1, 2, 3, 4, 5, 6, 7];
    let failed = || {
        Err(WmiError {
            code: -1,
            message: "no such method".to_string(),
        })
    };
    for (fetched, endorsement) in [(Ok(vec![8, 8]), Some(vec![8, 8])), (failed(), None)] {
        let invocation = rpc_igvm_attest(&request(), &mut Some(0)).unwrap();
        let call = invocation.agent_call(&report, Some(fetched));
        assert_eq!(call.vm_id, Some([9; 16]));
        assert_eq!(call.vm_name, "vm");
        assert_eq!(call.report, report);
        assert_eq!(call.endorsement, endorsement);
    }
    let nameless = AttestRequest {
        vm_id: None,
        vm_name: None,
        report_size: 0,
        ..request()
    };
    let invocation = rpc_igvm_attest(&nameless, &mut Some(0)).unwrap();
    let call = invocation.agent_call(&[], None);
    assert_eq!(call.vm_id, None);
    assert_eq!(call.vm_name, "");
    assert!(call.report.is_empty());
    assert_eq!(call.endorsement, None);
}

#[test]
fn a_payload_that_fits_is_copied_and_measured() {
    let mut size = Some(0);
    let reply = request().finish(&mut size, Ok::<_, ()>(vec![1, 2, 3, 4]));
    assert_eq!(reply.status, S_OK);
    assert_eq!(reply.response, [1, 2, 3, 4]);
    assert_eq!(size, Some(4));
}

#[test]
fn only_huge_payloads_overrun() {
    let request = request();
    for len in [0, 4, 5, u32::MAX as usize, 1 << 32, (1 << 32) + 5] {
        assert!(!request.is_overrun(len));
    }
    assert!(request.is_overrun((1 << 32) + 1));
    assert!(request.is_overrun((7 << 32) + 4));
}

#[test]
fn an_empty_payload_needs_no_buffer() {
    let mut request = request();
    request.response_present = false;
    request.response_buffer_size = 0;
    let mut size = Some(0);
    let reply = request.finish(&mut size, Ok::<_, ()>(Vec::new()));
    assert_eq!(reply.status, S_OK);
    assert!(reply.response.is_empty());
    assert_eq!(size, Some(0));
}

#[test]
fn each_failure_leaves_the_size_at_zero() {
    let mut size = Some(5);
    rpc_igvm_attest(&request(), &mut size).unwrap();

    let reply = request().finish(&mut size, Err("agent"));
    assert_eq!(reply.status, E_FAIL);
    assert!(reply.response.is_empty());
    assert_eq!(size, Some(0));

    let reply = request().finish(&mut size, Ok::<_, ()>(vec![0; 5]));
    assert_eq!(reply.status, E_OUTOFMEMORY);
    assert!(reply.response.is_empty());
    assert_eq!(size, Some(0));

    let mut no_response = request();
    no_response.response_present = false;
    let reply = no_response.finish(&mut size, Ok::<_, ()>(vec![0; 4]));
    assert_eq!(reply.status, E_INVALIDARG);
    assert!(reply.response.is_empty());
    assert_eq!(size, Some(0));

    let reply = request().finish(&mut None, Ok::<_, ()>(vec![0; 4]));
    assert_eq!(reply.status, E_POINTER);
}
