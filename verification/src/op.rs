//! Operators of the operator library (matrix multiply, softmax), called in
//! two phases: `new` asks the library for the workspace size and an
//! executor, `launch` runs the executor on a stream.
//!
//! The workspace lives in host memory owned by the executor. The runtime
//! wants it 64-byte aligned, so the executor allocates `size + 63` bytes
//! and starts the workspace at the first 64-byte boundary inside them;
//! [`lemma_workspace_fits`] proves that the aligned workspace always lies
//! inside the allocation.

use crate::error::{aclnn_error, fails_unavailable, is_aclnn_error, unavailable, Error};
use crate::stream::Stream;
use crate::sys::aclnn_ops::{aclnnStatus, ACLNN_SUCCESS};
use crate::tensor::Tensor;
use vstd::prelude::*;

verus! {

/// Alignment of an operator workspace, in bytes.
pub const WORKSPACE_ALIGN: usize = 64;

/// Whether `align` is a power of two.
pub open spec fn is_power_of_two(align: usize) -> bool {
    align > 0 && align & ((align - 1) as usize) == 0
}

/// A value whose bits below a power of two `align` are all clear is a
/// multiple of `align`.
proof fn lemma_low_bits_clear_is_multiple(r: usize, align: usize)
    requires
        is_power_of_two(align),
        r & ((align - 1) as usize) == 0,
    ensures
        r % align == 0,
    decreases align,
{
    if align > 1 {
        let m: usize = (align - 1) as usize;
        let h: usize = align / 2;
        let hm: usize = (h - 1) as usize;
        let s: usize = r / 2;
        assert(align % 2 == 0 && r % 2 == 0 && h > 0 && h & hm == 0 && s & hm == 0) by (bit_vector)
            requires
                align > 1,
                m == align - 1,
                align & m == 0,
                r & m == 0,
                h == align / 2,
                hm == h - 1,
                s == r / 2,
        ;
        lemma_low_bits_clear_is_multiple(s, h);
        assert(r % align == 0) by (nonlinear_arith)
            requires
                r == 2 * s,
                align == 2 * h,
                h > 0,
                s % h == 0,
        {
            let q = s / h;
            assert(s == h * q);
            assert(r == align * q);
        }
    }
}

/// `addr` rounded up to the next multiple of `align` (a power of two).
pub fn align_up(addr: usize, align: usize) -> (r: usize)
    requires
        is_power_of_two(align),
        addr + align - 1 <= usize::MAX,
    ensures
        r % align == 0,
        addr <= r,
        r - addr < align,
{
    let m: usize = align - 1;
    let x: usize = addr + m;
    let r = x & !m;
    assert(r <= x && x - r == x & m && x & m <= m && r & m == 0) by (bit_vector)
        requires
            r == x & !m,
    ;
    proof {
        lemma_low_bits_clear_is_multiple(r, align);
    }
    r
}


/// The error for a workspace query that succeeded without producing an
/// executor.
pub open spec fn is_missing_executor(e: Error) -> bool {
    e.code == -1 && e.message@ == "GetWorkspaceSize 返回空执行器句柄"@
}

/// The product of the first phase: the executor handle together with its
/// 64-byte aligned host workspace, released together.
///
/// This build links no NPU runtime, so no executor is ever created.
#[derive(Debug)]
pub struct OpExecutor {}

impl OpExecutor {
    /// Decides on the outcome of the first phase: given the status `ret`
    /// of the workspace query, the workspace size `ws_size` it reported and
    /// whether the executor handle it returned is null, fails with the
    /// status's error or the missing-executor error, or gives the number of
    /// bytes to allocate for the workspace (`ws_size + 63`, room for any
    /// alignment shift).
    pub fn workspace_capacity(ret: aclnnStatus, ws_size: u64, handle_is_null: bool) -> (r: Result<
        usize,
        Error,
    >)
        requires
            ret == ACLNN_SUCCESS && !handle_is_null ==> ws_size + (WORKSPACE_ALIGN - 1)
                <= usize::MAX,
        ensures
            ret != ACLNN_SUCCESS ==> (r matches Err(e) && is_aclnn_error(e, ret)),
            ret == ACLNN_SUCCESS && handle_is_null ==> (r matches Err(e) && is_missing_executor(e)),
            ret == ACLNN_SUCCESS && !handle_is_null ==> r == Ok::<usize, Error>(
                (ws_size + (WORKSPACE_ALIGN - 1)) as usize,
            ),
    {
        if ret != ACLNN_SUCCESS {
            return Err(aclnn_error(ret));
        }
        if handle_is_null {
            return Err(
                Error { code: -1, message: String::from_str("GetWorkspaceSize 返回空执行器句柄") },
            );
        }
        Ok(ws_size as usize + (WORKSPACE_ALIGN - 1))
    }

    /// The start of the workspace inside an allocation at address `base`:
    /// the first 64-byte boundary at or after `base`.
    pub fn workspace_start(base: usize) -> (r: usize)
        requires
            base + (WORKSPACE_ALIGN - 1) <= usize::MAX,
        ensures
            r % WORKSPACE_ALIGN == 0,
            base <= r,
            r - base < WORKSPACE_ALIGN,
    {
        assert(64usize & 63usize == 0) by (bit_vector);
        align_up(base, WORKSPACE_ALIGN)
    }
}

/// The aligned workspace lies inside its allocation: an allocation of
/// `ws_size + 63` bytes at `base` holds `ws_size` bytes from the first
/// 64-byte boundary at or after `base`.
pub proof fn lemma_workspace_fits(base: int, ws_size: int, start: int)
    requires
        0 <= base,
        0 <= ws_size,
        start % (WORKSPACE_ALIGN as int) == 0,
        base <= start,
        start - base < WORKSPACE_ALIGN,
    ensures
        start + ws_size <= base + (ws_size + (WORKSPACE_ALIGN - 1)),
{
}

/// Two-phase operator: exposes the executor produced by its first phase.
pub trait Operator {
    /// The executor (with its workspace) produced by the first phase.
    fn executor(&self) -> &OpExecutor;
}

/// Matrix multiply `out = a · b`.
///
/// The operator owns its tensors, which must outlive the executor.
#[derive(Debug)]
pub struct Matmul {
    a: Tensor,
    b: Tensor,
    out: Tensor,
    executor: OpExecutor,
}

impl Matmul {
    /// First phase of a matrix multiply of `a` and `b` into `out`, with
    /// cube compute mode `cube_math_type`.
    ///
    /// This build links no NPU runtime: the call always fails with the
    /// "runtime not linked" error.
    pub fn new(a: Tensor, b: Tensor, out: Tensor, cube_math_type: i8) -> (r: Result<Matmul, Error>)
        ensures
            fails_unavailable(r),
    {
        Err(unavailable())
    }

    /// Second phase: runs the multiply on `stream`.
    ///
    /// This build links no NPU runtime: the call always fails with the
    /// "runtime not linked" error.
    pub fn launch(&self, stream: &Stream) -> (r: Result<(), Error>)
        ensures
            fails_unavailable(r),
    {
        Err(unavailable())
    }
}

impl Operator for Matmul {
    fn executor(&self) -> &OpExecutor {
        &self.executor
    }
}

/// Softmax of `x` along dimension `dim` into `out`.
///
/// The operator owns its tensors, which must outlive the executor.
#[derive(Debug)]
pub struct Softmax {
    x: Tensor,
    dim: i64,
    out: Tensor,
    executor: OpExecutor,
}

impl Softmax {
    /// First phase of a softmax of `x` along `dim` into `out`.
    ///
    /// This build links no NPU runtime: the call always fails with the
    /// "runtime not linked" error.
    pub fn new(x: Tensor, dim: i64, out: Tensor) -> (r: Result<Softmax, Error>)
        ensures
            fails_unavailable(r),
    {
        Err(unavailable())
    }

    /// Second phase: runs the softmax on `stream`.
    ///
    /// This build links no NPU runtime: the call always fails with the
    /// "runtime not linked" error.
    pub fn launch(&self, stream: &Stream) -> (r: Result<(), Error>)
        ensures
            fails_unavailable(r),
    {
        Err(unavailable())
    }
}

impl Operator for Softmax {
    fn executor(&self) -> &OpExecutor {
        &self.executor
    }
}

} // verus!
