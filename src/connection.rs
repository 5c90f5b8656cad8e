//! Failures of the Wi-Fi handle and interface calls, by their system error code.

use vstd::prelude::*;

verus! {

#[derive(Clone, Copy, Debug, PartialEq, Eq, Structural)]
pub enum ErrorEnum {
    InvalidParameters,
    NotEnoughMemory,
    /// Too many handles were issued by the server.
    RemoteSessionLimitExceeded,
    InvalidHandle,
    Unknown,
}

pub const ERROR_INVALID_HANDLE: u32 = 6;

pub const ERROR_NOT_ENOUGH_MEMORY: u32 = 8;

pub const ERROR_INVALID_PARAMETER: u32 = 87;

pub const ERROR_REMOTE_SESSION_LIMIT_EXCEEDED: u32 = 1220;

pub const MSG_INVALID_PARAMETERS: &'static str = "\"Invalid parameters.\"";

pub const MSG_NOT_ENOUGH_MEMORY: &'static str = "\"Failed to allocate memory.\"";

pub const MSG_SESSION_LIMIT: &'static str = "\"Too many handles have been issued by the server.\"";

pub const MSG_INVALID_HANDLE: &'static str = "\"Invalid handle.\"";

pub const MSG_UNKNOWN_PREFIX: &'static str = "Unknown (WIN32_ERROR(";

pub const MSG_UNKNOWN_SUFFIX: &'static str = "))";

/// A Wi-Fi call's failure.
#[derive(Clone, Debug)]
pub struct WlanHandlerError {
    pub kind: ErrorEnum,
    pub error: String,
}

pub open spec fn digit_char(d: int) -> char {
    if d == 0 {
        '0'
    } else if d == 1 {
        '1'
    } else if d == 2 {
        '2'
    } else if d == 3 {
        '3'
    } else if d == 4 {
        '4'
    } else if d == 5 {
        '5'
    } else if d == 6 {
        '6'
    } else if d == 7 {
        '7'
    } else if d == 8 {
        '8'
    } else {
        '9'
    }
}

/// The decimal digits of `n`, most significant first, without leading zeros.
pub open spec fn decimal(n: nat) -> Seq<char>
    decreases n,
{
    if n < 10 {
        seq![digit_char(n as int)]
    } else {
        decimal(n / 10).push(digit_char((n % 10) as int))
    }
}

/// Relies on `u32`'s `to_string`: the decimal digits, with no sign, padding or
/// separators.
#[verifier::external_body]
fn decimal_string(n: u32) -> (r: String)
    ensures
        r@ == decimal(n as nat),
{
    n.to_string()
}

pub open spec fn wlan_error_kind(code: u32) -> ErrorEnum {
    if code == ERROR_INVALID_PARAMETER {
        ErrorEnum::InvalidParameters
    } else if code == ERROR_NOT_ENOUGH_MEMORY {
        ErrorEnum::NotEnoughMemory
    } else if code == ERROR_REMOTE_SESSION_LIMIT_EXCEEDED {
        ErrorEnum::RemoteSessionLimitExceeded
    } else if code == ERROR_INVALID_HANDLE {
        ErrorEnum::InvalidHandle
    } else {
        ErrorEnum::Unknown
    }
}

pub open spec fn wlan_error_message(code: u32) -> Seq<char> {
    if code == ERROR_INVALID_PARAMETER {
        MSG_INVALID_PARAMETERS@
    } else if code == ERROR_NOT_ENOUGH_MEMORY {
        MSG_NOT_ENOUGH_MEMORY@
    } else if code == ERROR_REMOTE_SESSION_LIMIT_EXCEEDED {
        MSG_SESSION_LIMIT@
    } else if code == ERROR_INVALID_HANDLE {
        MSG_INVALID_HANDLE@
    } else {
        MSG_UNKNOWN_PREFIX@ + decimal(code as nat) + MSG_UNKNOWN_SUFFIX@
    }
}

impl WlanHandlerError {
    /// The error for a system error code.
    pub fn new(code: u32) -> (e: Self)
        ensures
            e.kind == wlan_error_kind(code),
            e.error@ == wlan_error_message(code),
    {
        if code == ERROR_INVALID_PARAMETER {
            WlanHandlerError { kind: ErrorEnum::InvalidParameters, error: MSG_INVALID_PARAMETERS.to_owned() }
        } else if code == ERROR_NOT_ENOUGH_MEMORY {
            WlanHandlerError { kind: ErrorEnum::NotEnoughMemory, error: MSG_NOT_ENOUGH_MEMORY.to_owned() }
        } else if code == ERROR_REMOTE_SESSION_LIMIT_EXCEEDED {
            WlanHandlerError {
                kind: ErrorEnum::RemoteSessionLimitExceeded,
                error: MSG_SESSION_LIMIT.to_owned(),
            }
        } else if code == ERROR_INVALID_HANDLE {
            WlanHandlerError { kind: ErrorEnum::InvalidHandle, error: MSG_INVALID_HANDLE.to_owned() }
        } else {
            let digits = decimal_string(code);
            let error = MSG_UNKNOWN_PREFIX.to_owned().concat(digits.as_str()).concat(MSG_UNKNOWN_SUFFIX);
            WlanHandlerError { kind: ErrorEnum::Unknown, error }
        }
    }
}

/// `IF_TYPE_ETHERNET_CSMACD`: an Ethernet network interface.
pub const IF_TYPE_ETHERNET: u32 = 6;

/// The friendly name of the built-in wired adapter.
pub const ETHERNET_NAME: &'static str = "Ethernet";

/// A network adapter, as the caller enumerated it.
#[derive(Clone, Debug)]
pub struct AdapterInfo {
    pub if_type: u32,
    pub friendly_name: String,
    /// The adapter's operational status is up.
    pub is_up: bool,
}

/// The wired adapter the automation watches.
pub open spec fn is_ethernet_adapter(a: AdapterInfo) -> bool {
    a.if_type == IF_TYPE_ETHERNET && a.friendly_name@ == ETHERNET_NAME@
}

/// Whether Ethernet is plugged in: the first Ethernet adapter named
/// "Ethernet" is up. False where there is none.
pub fn is_ethernet_plugged_in(adapters: &Vec<AdapterInfo>) -> (r: bool)
    ensures
        r == exists|i: int|
            0 <= i < adapters.len() && is_ethernet_adapter(#[trigger] adapters@[i]) && adapters@[i].is_up
                && forall|j: int| 0 <= j < i ==> !is_ethernet_adapter(#[trigger] adapters@[j]),
{
    let name: String = ETHERNET_NAME.to_owned();
    let mut i: usize = 0;
    while i < adapters.len()
        invariant
            i <= adapters.len(),
            name@ == ETHERNET_NAME@,
            forall|j: int| 0 <= j < i ==> !is_ethernet_adapter(#[trigger] adapters@[j]),
        decreases adapters.len() - i,
    {
        let a = &adapters[i];
        if a.if_type == IF_TYPE_ETHERNET && a.friendly_name == name {
            assert(is_ethernet_adapter(adapters@[i as int]));
            if !a.is_up {
                assert forall|k: int|
                    0 <= k < adapters.len() && is_ethernet_adapter(#[trigger] adapters@[k]) && adapters@[k].is_up
                        implies exists|j: int| 0 <= j < k && is_ethernet_adapter(#[trigger] adapters@[j]) by {
                    assert(k != i);
                    if k < i {
                        assert(false);
                    }
                }
            }
            return a.is_up;
        }
        i = i + 1;
    }
    false
}

} // verus!
