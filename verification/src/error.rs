//! Error taxonomy shared by every public operation of the library.

use vstd::prelude::*;

verus! {

/// The error kinds a HID operation can surface.
///
/// Every native-call failure is converted at the point of call into one of
/// these kinds; no retries are performed anywhere in the library.
#[derive(Debug, Clone, Copy, PartialEq, Eq, Structural)]
pub enum HidError {
    /// A native call returned a non-success status; carries the raw code.
    NativeApiError { code: i32 },
    /// I/O was attempted after the disconnect callback fired.
    DeviceDisconnected,
    /// A read arrived after the pump was told to stop but before the handle
    /// fully tore down.
    ThreadShutdown,
    /// Open-by-id found no match, or a path token failed to resolve.
    DeviceNotFound,
    /// A zero-length report payload was supplied.
    InvalidInput,
}

/// Result alias used by every public boundary of the library.
pub type HidResult<T> = Result<T, HidError>;

impl HidError {
    /// A short human-readable description of the error kind.
    pub fn message(&self) -> (r: &'static str)
        ensures
            r@.len() > 0,
    {
        proof {
            reveal_strlit("native API call failed");
            reveal_strlit("device disconnected");
            reveal_strlit("reader thread shut down");
            reveal_strlit("device not found");
            reveal_strlit("invalid data: size can not be 0");
        }
        match self {
            HidError::NativeApiError { .. } => "native API call failed",
            HidError::DeviceDisconnected => "device disconnected",
            HidError::ThreadShutdown => "reader thread shut down",
            HidError::DeviceNotFound => "device not found",
            HidError::InvalidInput => "invalid data: size can not be 0",
        }
    }
}

} // verus!
