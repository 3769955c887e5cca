//! Streams: ordered queues of asynchronous device work.
//!
//! A stream belongs to the device context of the creating thread; before
//! using it on another thread, that thread must bind the same device. The
//! type is neither `Send` nor `Sync`, and must be dropped before the device
//! is reset.

use crate::error::{check_status, code_message, fails_unavailable, unavailable, Error};
use crate::sys::acl_base_rt::{aclError, ACL_SUCCESS};
use vstd::prelude::*;

verus! {

/// A stream of device work.
///
/// This build links no NPU runtime, so no stream is ever created.
#[derive(Debug)]
pub struct Stream {}

impl Stream {
    /// Creates a stream on the calling thread's device.
    ///
    /// This build links no NPU runtime: the call always fails with the
    /// "runtime not linked" error.
    pub fn new() -> (r: Result<Stream, Error>)
        ensures
            fails_unavailable(r),
    {
        Err(unavailable())
    }

    /// Blocks until all work queued on the stream has finished.
    ///
    /// This build links no NPU runtime: the call always fails with the
    /// "runtime not linked" error.
    pub fn synchronize(&self) -> (r: Result<(), Error>)
        ensures
            fails_unavailable(r),
    {
        Err(unavailable())
    }

    /// Whether all work queued on the stream has finished (`Ok(true)` when
    /// idle).
    ///
    /// This build links no NPU runtime: the call always fails with the
    /// "runtime not linked" error.
    pub fn query(&self) -> (r: Result<bool, Error>)
        ensures
            fails_unavailable(r),
    {
        Err(unavailable())
    }

    /// Turns what the runtime reports for a stream query into the result of
    /// [`Stream::query`]: the status's error when the query failed, else
    /// whether the reported task status is `0` (idle); a non-zero status
    /// means work is still running or has failed.
    pub fn query_outcome(ret: aclError, status: u32) -> (r: Result<bool, Error>)
        ensures
            ret == ACL_SUCCESS ==> r == Ok::<bool, Error>(status == 0),
            ret != ACL_SUCCESS ==> (r matches Err(e) && e.code == ret && e.message@
                == code_message(ret)),
    {
        match check_status(ret) {
            Ok(()) => Ok(status == 0),
            Err(e) => Err(e),
        }
    }
}

} // verus!
