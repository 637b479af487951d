//! The Windows status codes that the RPC handlers return.

use crate::text::{hex, hex_chars};
use vstd::prelude::*;

verus! {

/// A COM status; negative means failure.
pub type HRESULT = i32;

pub const S_OK: HRESULT = 0;

/// `0x8000_4005`: unspecified failure.
pub const E_FAIL: HRESULT = -2147467259;

/// `0x8007_0057`: invalid argument.
pub const E_INVALIDARG: HRESULT = -2147024809;

/// `0x8007_000e`: not enough room.
pub const E_OUTOFMEMORY: HRESULT = -2147024882;

/// `0x8000_4003`: null pointer.
pub const E_POINTER: HRESULT = -2147467261;

/// `0x8001_0119`: process-wide COM security was already configured.
pub const RPC_E_TOO_LATE: HRESULT = -2147417831;

/// The RPC exception that says that nobody serves the call.
pub const RPC_S_SERVER_UNAVAILABLE: i32 = 1722;

/// The 32 bits of a status as an unsigned number.
pub open spec fn status_bits(status: HRESULT) -> nat {
    if status < 0 {
        (status + 0x1_0000_0000) as nat
    } else {
        status as nat
    }
}

/// Writes a status the way it is documented: `0x` and eight digits.
pub fn format_hresult(status: HRESULT) -> (text: String)
    ensures
        text@ == "0x"@ + hex_chars(status_bits(status), 8),
{
    let bits: u32 = status as u32;
    assert(status >= 0 ==> bits == status);
    assert(status < 0 ==> bits == status + 0x1_0000_0000) by (bit_vector)
        requires
            bits == status as u32,
    ;
    let mut text = "0x".to_owned();
    text.append(hex(bits, 8).as_str());
    text
}

} // verus!
