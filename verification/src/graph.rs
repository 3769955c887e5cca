//! Graph engine: parsing ONNX models and compiling them to offline models.
//!
//! Graph handles are valid only on the thread that created them; the types
//! here are neither `Send` nor `Sync`.

use crate::error::{fails_unavailable, unavailable, Error};
use std::path::Path;
use vstd::prelude::*;

verus! {

/// Declares `std::path::Path` to the verifier so that paths can be taken as
/// arguments; nothing about a path's contents is assumed.
#[verifier::external_type_specification]
#[verifier::external_body]
pub struct ExPath(Path);

/// A parsed ONNX computation graph.
///
/// This build links no graph engine, so no graph is ever parsed.
#[derive(Debug)]
pub struct Graph {}

impl Graph {
    /// Parses the ONNX model in the file at `path`.
    ///
    /// This build links no graph engine: the call always fails with the
    /// "runtime not linked" error.
    pub fn from_onnx(path: &Path) -> (r: Result<Graph, Error>)
        ensures
            fails_unavailable(r),
    {
        Err(unavailable())
    }

    /// Parses the ONNX model held in `bytes`.
    ///
    /// This build links no graph engine: the call always fails with the
    /// "runtime not linked" error.
    pub fn from_mem(bytes: &[u8]) -> (r: Result<Graph, Error>)
        ensures
            fails_unavailable(r),
    {
        Err(unavailable())
    }

    /// Compiles the graph and saves the offline model at `out_path`.
    ///
    /// This build links no graph engine: the call always fails with the
    /// "runtime not linked" error.
    pub fn build_and_save(&self, out_path: &Path) -> (r: Result<(), Error>)
        ensures
            fails_unavailable(r),
    {
        Err(unavailable())
    }
}

/// A parse-then-compile session owning one graph.
///
/// This build links no graph engine, so no session is ever created.
#[derive(Debug)]
pub struct Session {}

impl Session {
    /// Creates a session from the ONNX model in the file at `path`.
    ///
    /// This build links no graph engine: the call always fails with the
    /// "runtime not linked" error.
    pub fn from_onnx(path: &Path) -> (r: Result<Session, Error>)
        ensures
            fails_unavailable(r),
    {
        Err(unavailable())
    }

    /// Creates a session from the ONNX model held in `bytes`.
    ///
    /// This build links no graph engine: the call always fails with the
    /// "runtime not linked" error.
    pub fn from_mem(bytes: &[u8]) -> (r: Result<Session, Error>)
        ensures
            fails_unavailable(r),
    {
        Err(unavailable())
    }

    /// Compiles the session's graph and saves the offline model at
    /// `out_path`.
    ///
    /// This build links no graph engine: the call always fails with the
    /// "runtime not linked" error.
    pub fn build_and_save(&self, out_path: &Path) -> (r: Result<(), Error>)
        ensures
            fails_unavailable(r),
    {
        Err(unavailable())
    }
}

/// The error for a path that cannot be handed to the graph engine because
/// it holds a NUL byte: code `-1`, message `<operation>: 路径含 NUL 字节，无法转为
/// C 字符串`.
pub open spec fn is_nul_in_path(e: Error, operation: Seq<char>) -> bool {
    e.code == -1 && e.message@ == operation + ": 路径含 NUL 字节，无法转为 C 字符串"@
}

/// Checks that the bytes of a path can be handed to the graph engine as a
/// C string (they hold no NUL byte); `operation` names the call for the
/// error message.
pub fn check_path_bytes(bytes: &[u8], operation: &str) -> (r: Result<(), Error>)
    ensures
        r is Ok <==> forall|i: int| 0 <= i < bytes@.len() ==> bytes@[i] != 0,
        r matches Err(e) ==> is_nul_in_path(e, operation@),
{
    let mut i: usize = 0;
    while i < bytes.len()
        invariant
            i <= bytes@.len(),
            forall|k: int| 0 <= k < i ==> bytes@[k] != 0,
        decreases bytes@.len() - i,
    {
        if bytes[i] == 0 {
            let mut message = String::from_str(operation);
            message.append(": 路径含 NUL 字节，无法转为 C 字符串");
            return Err(Error { code: -1, message });
        }
        i = i + 1;
    }
    Ok(())
}

} // verus!
