//! The process-wide runtime environment.
//!
//! Initialising and finalising the environment are process-level actions,
//! independent of the calling thread; every stream, event and buffer must
//! be dropped, and every device reset, before the environment ends.

use crate::error::{fails_unavailable, unavailable, Error};
use vstd::prelude::*;

verus! {

/// Guard of the initialised runtime environment.
#[derive(Debug)]
pub struct Context;

impl Context {
    /// Initialises the runtime environment with the default configuration;
    /// it must succeed before any other runtime call.
    ///
    /// This build links no NPU runtime: the call always fails with the
    /// "runtime not linked" error.
    pub fn new() -> (r: Result<Context, Error>)
        ensures
            fails_unavailable(r),
    {
        Err(unavailable())
    }
}

} // verus!
