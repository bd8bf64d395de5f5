use vstd::prelude::*;

verus! {

pub const NO_ERROR: u32 = 0;
pub const PROTOCOL_ERROR: u32 = 1;
pub const INTERNAL_ERROR: u32 = 2;
pub const FLOW_CONTROL_ERROR: u32 = 3;
pub const SETTINGS_TIMEOUT: u32 = 4;
pub const STREAM_CLOSED: u32 = 5;
pub const FRAME_SIZE_ERROR: u32 = 6;
pub const REFUSED_STREAM: u32 = 7;
pub const CANCEL: u32 = 8;
pub const COMPRESSION_ERROR: u32 = 9;
pub const CONNECT_ERROR: u32 = 10;
pub const ENHANCE_YOUR_CALM: u32 = 11;
pub const INADEQUATE_SECURITY: u32 = 12;
pub const HTTP_1_1_REQUIRED: u32 = 13;

/// An error code carried by a reset frame or a connection error.
///
/// The standard codes are the constants of this module; any other value is
/// carried unchanged.
#[derive(Debug, Clone, Copy, PartialEq, Eq, Structural)]
pub struct Reason {
    pub code: u32,
}

impl From<u32> for Reason {
    fn from(code: u32) -> (r: Reason)
        ensures
            r.code == code,
    {
        Reason { code }
    }
}

impl vstd::std_specs::convert::FromSpecImpl<u32> for Reason {
    open spec fn obeys_from_spec() -> bool {
        true
    }

    open spec fn from_spec(code: u32) -> Reason {
        Reason { code }
    }
}

} // verus!
