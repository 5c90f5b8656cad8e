//! Failures of the audio endpoint, session and switch operations.

use vstd::prelude::*;

verus! {

/// What went wrong, by the operation that failed.
#[derive(Clone, Copy, Debug, PartialEq, Eq, Structural)]
pub enum ErrorEnum {
    NotInitialized,
    InitializationFailed,
    OpenPropertyStoreFailed,
    GetPropertyStoreValueFailed,
    GetDeviceIdFailed,
    /// No such device: no default endpoint for a direction, or a switch
    /// target that is gone.
    DeviceNotFound,
    /// The collection of endpoints could not be obtained.
    GetDeviceCollectionFailed,
    /// The switch of the default endpoint failed for another reason.
    SetDefaultEndpointFailed,
    /// The capture device could not produce a session manager.
    CreateCOMObjectFailed,
    GetSessionEnumeratorFailed,
    GetSessionFailed,
    CastFailed,
    GetStateFailed,
    GetProcessIdFailed,
}

/// `HRESULT_FROM_WIN32(ERROR_NOT_FOUND)`: the endpoint id does not resolve.
pub const E_NOTFOUND: u32 = 0x8007_0490;

/// `AUDCLNT_E_DEVICE_INVALIDATED`: the endpoint was removed.
pub const AUDCLNT_E_DEVICE_INVALIDATED: u32 = 0x8889_0004;

/// An audio operation's failure, with the status code the system gave and a
/// message for the log.
#[derive(Clone, Debug)]
pub struct AudioDeviceError {
    pub kind: ErrorEnum,
    /// The status code as its 32 bits; 0 where none was given.
    pub code: u32,
    pub error: String,
}

/// The kind of a failed switch of the default output, from its status code.
pub open spec fn switch_failure_spec(code: u32) -> ErrorEnum {
    if code == E_NOTFOUND || code == AUDCLNT_E_DEVICE_INVALIDATED {
        ErrorEnum::DeviceNotFound
    } else {
        ErrorEnum::SetDefaultEndpointFailed
    }
}

impl AudioDeviceError {
    /// An error with a message and no status code.
    pub fn new_with_message(kind: ErrorEnum, error: String) -> (e: Self)
        ensures
            e.kind == kind,
            e.code == 0,
            e.error@ == error@,
    {
        AudioDeviceError { kind, code: 0, error }
    }

    /// An error with the status code the system returned.
    pub fn with_code(kind: ErrorEnum, code: u32, error: String) -> (e: Self)
        ensures
            e.kind == kind,
            e.code == code,
            e.error@ == error@,
    {
        AudioDeviceError { kind, code, error }
    }

    /// The error for a switch of the default output that returned `code`: the
    /// device is gone, or the operation failed otherwise.
    pub fn switch_failure(code: u32, error: String) -> (e: Self)
        ensures
            e.kind == switch_failure_spec(code),
            e.code == code,
            e.error@ == error@,
    {
        let kind = if code == E_NOTFOUND || code == AUDCLNT_E_DEVICE_INVALIDATED {
            ErrorEnum::DeviceNotFound
        } else {
            ErrorEnum::SetDefaultEndpointFailed
        };
        AudioDeviceError { kind, code, error }
    }

    pub fn kind(&self) -> (k: ErrorEnum)
        ensures
            k == self.kind,
    {
        self.kind
    }
}

} // verus!
