use openhcl_reseal::gsp::{
    gsp_request_summary, open_seed, rpc_vm_gsp_request, seal_seed, GspCipher, GspClear, GspOutcome,
    GspRequestInfo, GspResponseInfo, STATUS_FLAG_STATE_REFRESH_REQUEST,
};
use openhcl_reseal::hresult::{E_POINTER, RPC_S_SERVER_UNAVAILABLE};

fn clear(length: u32, fill: u8) -> GspClear {
    GspClear {
        length,
        buffer: [fill; 64],
    }
}

fn cipher(length: u32, fill: u8) -> GspCipher {
    GspCipher {
        length,
        buffer: [fill; 512],
    }
}

fn request() -> GspRequestInfo {
    GspRequestInfo {
        new_gsp: clear(3, 0x51),
        encrypted_gsp: [cipher(2, 0x62), cipher(0, 0x73)],
        supported_status_flags: 9,
    }
}

fn respond(request: &GspRequestInfo) -> GspResponseInfo {
    match rpc_vm_gsp_request(Some(true), Some(request), true) {
        GspOutcome::Respond(response) => response,
        _ => panic!("the request is complete"),
    }
}

#[test]
fn without_a_wish_for_refresh_the_call_is_refused() {
    for state_refresh in [None, Some(false)] {
        for request in [None, Some(&request())] {
            assert!(matches!(
                rpc_vm_gsp_request(state_refresh, request, false),
                GspOutcome::Raise(RPC_S_SERVER_UNAVAILABLE)
            ));
        }
    }
}

#[test]
fn null_buffers_of_a_served_call_are_errors() {
    assert!(matches!(
        rpc_vm_gsp_request(Some(true), None, true),
        GspOutcome::Fail(E_POINTER)
    ));
    assert!(matches!(
        rpc_vm_gsp_request(Some(true), Some(&request()), false),
        GspOutcome::Fail(E_POINTER)
    ));
}

#[test]
fn seeds_are_echoed_and_the_rest_is_zero() {
    let response = respond(&request());
    assert_eq!(response.encrypted_gsp.length, 3);
    assert_eq!(response.encrypted_gsp.buffer[..3], [0x51; 3]);
    assert_eq!(response.encrypted_gsp.buffer[3..], [0; 509]);
    assert_eq!(response.decrypted_gsp[0].length, 2);
    assert_eq!(response.decrypted_gsp[0].buffer[..2], [0x62; 2]);
    assert_eq!(response.decrypted_gsp[0].buffer[2..], [0; 62]);
    assert_eq!(response.decrypted_gsp[1].length, 0);
    assert_eq!(response.decrypted_gsp[1].buffer, [0; 64]);
    assert_eq!(
        response.response_status_flags,
        STATUS_FLAG_STATE_REFRESH_REQUEST
    );
    assert_eq!(response.response_status_flags, 1);
}

#[test]
fn overlong_lengths_are_cut_to_the_clear_size() {
    let sealed = seal_seed(&clear(u32::MAX, 0x11));
    assert_eq!(sealed.length, 64);
    assert_eq!(sealed.buffer[..64], [0x11; 64]);
    assert_eq!(sealed.buffer[64..], [0; 448]);
    let opened = open_seed(&cipher(500, 0x22));
    assert_eq!(opened.length, 64);
    assert_eq!(opened.buffer, [0x22; 64]);
    assert_eq!(open_seed(&cipher(65, 1)).length, 64);
    assert_eq!(open_seed(&cipher(64, 1)).length, 64);
    assert_eq!(open_seed(&cipher(63, 1)).length, 63);
}

#[test]
fn a_seed_survives_a_reboot_in_either_slot() {
    let first = respond(&request());
    for slot in [0, 1] {
        let mut next = request();
        next.encrypted_gsp[slot] = first.encrypted_gsp;
        let second = respond(&next);
        assert_eq!(second.decrypted_gsp[slot].length, 3);
        assert_eq!(second.decrypted_gsp[slot].buffer[..3], [0x51; 3]);
        assert_eq!(second.decrypted_gsp[slot].buffer[3..], [0; 61]);
    }
}

#[test]
fn an_empty_seed_is_not_available() {
    let mut request = request();
    request.new_gsp.length = 0;
    assert_eq!(respond(&request).encrypted_gsp.length, 0);
}

#[test]
fn the_summary_counts_stored_seeds() {
    assert_eq!(gsp_request_summary(Some(&request())), (3, 1, 9));
    let mut full = request();
    full.encrypted_gsp[1].length = 1;
    assert_eq!(gsp_request_summary(Some(&full)), (3, 2, 9));
    assert_eq!(gsp_request_summary(None), (0, 0, 0));
}
