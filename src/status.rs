//! OPC UA status codes as plain 32-bit values.

use vstd::prelude::*;

verus! {

/// The severity bit that marks a status code as bad.
pub const SEVERITY_BAD: u32 = 0x8000_0000;

/// The severity bit that marks a status code as uncertain.
pub const SEVERITY_UNCERTAIN: u32 = 0x4000_0000;

/// The code a server returns when a request needs a session that is not
/// connected.
pub const BAD_NOT_CONNECTED: u32 = 0x808A_0000;

/// A code is good when neither the bad nor the uncertain severity bit is set.
pub open spec fn is_good_code(code: u32) -> bool {
    code & SEVERITY_BAD == 0 && code & SEVERITY_UNCERTAIN == 0
}

/// Whether a status code reports success.
pub fn is_good(code: u32) -> (r: bool)
    ensures
        r == is_good_code(code),
{
    code & SEVERITY_BAD == 0 && code & SEVERITY_UNCERTAIN == 0
}

/// The text that OPC UA shows for a status code.
pub uninterp spec fn status_text(code: u32) -> Seq<char>;

/// Relies on opcua's `Display` for `StatusCode`: the name of the code, and
/// its low flag bits when any is set; it depends on the code alone.
#[verifier::external_body]
pub(crate) fn status_code_text(code: u32) -> (r: String)
    ensures
        r@ == status_text(code),
{
    opcua::types::StatusCode::from_bits_truncate(code).to_string()
}

} // verus!
