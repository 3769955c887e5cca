//! Device management: device count, per-thread device binding, and the
//! chip model name.
//!
//! The "current device" is bound per calling thread: `set_device` and
//! `reset_device` affect only the calling thread, and each `set_device`
//! must be paired with a `reset_device` after every stream, event and
//! buffer of that device has been dropped.

use crate::error::{code_message, fails_unavailable, unavailable, Error};
use crate::sys::acl_base_rt::ACL_ERROR_UNINITIALIZE;
use crate::text::utf8_text;
use vstd::utf8::{decode_utf8, valid_utf8};
use vstd::prelude::*;

verus! {

/// The number of devices on this machine (device ids run from `0` to
/// `count - 1`).
///
/// This build links no NPU runtime: the call always fails with the
/// "runtime not linked" error.
pub fn device_count() -> (r: Result<u32, Error>)
    ensures
        fails_unavailable(r),
{
    Err(unavailable())
}

/// Binds the calling thread to device `dev`.
///
/// This build links no NPU runtime: the call always fails with the
/// "runtime not linked" error.
pub fn set_device(dev: u32) -> (r: Result<(), Error>)
    ensures
        fails_unavailable(r),
{
    Err(unavailable())
}

/// Releases the calling thread's reference to device `dev`.
///
/// This build links no NPU runtime: the call always fails with the
/// "runtime not linked" error.
pub fn reset_device(dev: u32) -> (r: Result<(), Error>)
    ensures
        fails_unavailable(r),
{
    Err(unavailable())
}

/// The chip model of the calling thread's device, such as `Ascend910B4`.
///
/// This build links no NPU runtime: the call always fails with the
/// "runtime not linked" error.
pub fn soc_name() -> (r: Result<String, Error>)
    ensures
        fails_unavailable(r),
{
    Err(unavailable())
}


/// The error for a chip model name that is not valid UTF-8.
pub open spec fn is_bad_soc_name(e: Error) -> bool {
    e.code == -1 && e.message@ == "SOC 型号名不是合法 UTF-8 字符串"@
}

/// Turns what the runtime reports as the chip model name into the result
/// of [`soc_name`]: no name (a null pointer) is the "not initialised"
/// error, a name that is not valid UTF-8 is [`is_bad_soc_name`], any other
/// name is its text.
pub fn soc_name_from(name: Option<&[u8]>) -> (r: Result<String, Error>)
    ensures
        match name {
            None => r matches Err(e) && e.code == ACL_ERROR_UNINITIALIZE && e.message@
                == code_message(ACL_ERROR_UNINITIALIZE),
            Some(b) => if valid_utf8(b@) {
                r matches Ok(s) && s@ == decode_utf8(b@)
            } else {
                r matches Err(e) && is_bad_soc_name(e)
            },
        },
{
    match name {
        None => Err(Error::from(ACL_ERROR_UNINITIALIZE)),
        Some(b) => match utf8_text(b) {
            Some(s) => Ok(String::from_str(s)),
            None => Err(
                Error { code: -1, message: String::from_str("SOC 型号名不是合法 UTF-8 字符串") },
            ),
        },
    }
}

} // verus!
