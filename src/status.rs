//! Canonical status codes and the translation of backend-native result codes.
use vstd::prelude::*;

verus! {

/// Backend-native code: the call succeeded.
pub const NATIVE_SUCCESS: u32 = 0;

/// Backend-native code: the device was lost.
pub const NATIVE_DEVICE_LOST: u32 = 0x7000_0001;

/// Backend-native code: the host ran out of memory.
pub const NATIVE_OUT_OF_HOST_MEMORY: u32 = 0x7000_0002;

/// Backend-native code: the device ran out of memory.
pub const NATIVE_OUT_OF_DEVICE_MEMORY: u32 = 0x7000_0003;

/// The canonical status enumeration surfaced to callers.
#[derive(Clone, Copy, Debug, PartialEq, Eq, Structural)]
pub enum Status {
    Success,
    DeviceLost,
    OutOfMemory,
    NoDevice,
    InvalidDevice,
    Unknown,
}

/// The canonical image of a backend-native result code.
pub open spec fn translate_spec(code: u32) -> Status {
    if code == NATIVE_SUCCESS {
        Status::Success
    } else if code == NATIVE_DEVICE_LOST {
        Status::DeviceLost
    } else if code == NATIVE_OUT_OF_HOST_MEMORY || code == NATIVE_OUT_OF_DEVICE_MEMORY {
        Status::OutOfMemory
    } else {
        Status::Unknown
    }
}

/// The result of a backend call whose only payload is its result code.
pub open spec fn check_spec(code: u32) -> Result<(), Status> {
    if translate_spec(code) == Status::Success {
        Ok(())
    } else {
        Err(translate_spec(code))
    }
}

/// Maps a backend-native result code to its canonical status; codes without a
/// mapping of their own become `Unknown`.
pub fn translate(code: u32) -> (r: Status)
    ensures
        r == translate_spec(code),
{
    if code == NATIVE_SUCCESS {
        Status::Success
    } else if code == NATIVE_DEVICE_LOST {
        Status::DeviceLost
    } else if code == NATIVE_OUT_OF_HOST_MEMORY || code == NATIVE_OUT_OF_DEVICE_MEMORY {
        Status::OutOfMemory
    } else {
        Status::Unknown
    }
}

/// Turns a backend-native result code into `Ok(())` on success and into the
/// translated error otherwise.
pub fn check(code: u32) -> (r: Result<(), Status>)
    ensures
        r == check_spec(code),
        r is Ok <==> code == NATIVE_SUCCESS,
        r matches Err(e) ==> e != Status::Success,
{
    let s = translate(code);
    match s {
        Status::Success => Ok(()),
        _ => Err(s),
    }
}

/// Every native code has exactly one canonical image, only the success code
/// maps to `Success`, and codes outside the known set map to `Unknown`.
pub proof fn lemma_translation_total(code: u32)
    ensures
        translate_spec(code) == Status::Success <==> code == NATIVE_SUCCESS,
        code != NATIVE_SUCCESS && code != NATIVE_DEVICE_LOST && code != NATIVE_OUT_OF_HOST_MEMORY
            && code != NATIVE_OUT_OF_DEVICE_MEMORY ==> translate_spec(code) == Status::Unknown,
        translate_spec(code) != Status::NoDevice && translate_spec(code) != Status::InvalidDevice,
{
}

} // verus!
