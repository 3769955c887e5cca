//! Events: markers recorded on a stream, used to wait for work or to make
//! another stream wait.
//!
//! An event belongs to the device context of the creating thread; the type
//! is neither `Send` nor `Sync`, and must be dropped before the device is
//! reset.

use crate::error::{fails_unavailable, unavailable, Error};
use crate::stream::Stream;
use vstd::prelude::*;

verus! {

/// A device event.
///
/// This build links no NPU runtime, so no event is ever created.
#[derive(Debug)]
pub struct Event {}

impl Event {
    /// Creates an event on the calling thread's device.
    ///
    /// This build links no NPU runtime: the call always fails with the
    /// "runtime not linked" error.
    pub fn new() -> (r: Result<Event, Error>)
        ensures
            fails_unavailable(r),
    {
        Err(unavailable())
    }

    /// Records the event on `stream`, or on the thread's default stream
    /// when `None`.
    ///
    /// This build links no NPU runtime: the call always fails with the
    /// "runtime not linked" error.
    pub fn record(&self, stream: Option<&Stream>) -> (r: Result<(), Error>)
        ensures
            fails_unavailable(r),
    {
        Err(unavailable())
    }

    /// Blocks until the recorded event has happened.
    ///
    /// This build links no NPU runtime: the call always fails with the
    /// "runtime not linked" error.
    pub fn synchronize(&self) -> (r: Result<(), Error>)
        ensures
            fails_unavailable(r),
    {
        Err(unavailable())
    }

    /// Makes later work on `stream` wait for this event.
    ///
    /// This build links no NPU runtime: the call always fails with the
    /// "runtime not linked" error.
    pub fn stream_wait(&self, stream: &Stream) -> (r: Result<(), Error>)
        ensures
            fails_unavailable(r),
    {
        Err(unavailable())
    }
}

} // verus!
