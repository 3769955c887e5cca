//! Device memory, page-locked host memory, and copies between them.
//!
//! Device memory belongs to its device: a thread must bind that device
//! before using or freeing it, and every buffer must be dropped before the
//! device is reset.

use crate::error::{fails_unavailable, unavailable, Error};
use crate::stream::Stream;
use crate::sys::acl_memory::{
    aclrtMemMallocPolicy, aclrtMemcpyKind, ACL_MEMCPY_DEVICE_TO_DEVICE,
    ACL_MEMCPY_DEVICE_TO_HOST, ACL_MEMCPY_HOST_TO_DEVICE, ACL_MEM_MALLOC_HUGE1G_ONLY,
    ACL_MEM_MALLOC_HUGE1G_ONLY_P2P, ACL_MEM_MALLOC_HUGE_FIRST, ACL_MEM_MALLOC_HUGE_FIRST_P2P,
    ACL_MEM_MALLOC_HUGE_ONLY, ACL_MEM_MALLOC_HUGE_ONLY_P2P, ACL_MEM_MALLOC_NORMAL_ONLY,
    ACL_MEM_MALLOC_NORMAL_ONLY_P2P,
};
use vstd::prelude::*;

verus! {

/// Device memory allocation policy (the eight allocation policies of the
/// C interface; the bandwidth and access flags are not exposed).
#[derive(Debug, Clone, Copy, PartialEq, Eq, Structural)]
pub enum MemFlags {
    /// Huge pages first, falling back to normal pages.
    HugeFirst,
    /// Huge pages only.
    HugeOnly,
    /// Normal pages only.
    NormalOnly,
    /// Huge pages first, peer-to-peer.
    HugeFirstP2P,
    /// Huge pages only, peer-to-peer.
    HugeOnlyP2P,
    /// Normal pages only, peer-to-peer.
    NormalOnlyP2P,
    /// 1G huge pages only.
    Huge1GOnly,
    /// 1G huge pages only, peer-to-peer.
    Huge1GOnlyP2P,
}

impl MemFlags {
    /// The C allocation policy of this flag.
    pub open spec fn policy(self) -> aclrtMemMallocPolicy {
        match self {
            MemFlags::HugeFirst => ACL_MEM_MALLOC_HUGE_FIRST,
            MemFlags::HugeOnly => ACL_MEM_MALLOC_HUGE_ONLY,
            MemFlags::NormalOnly => ACL_MEM_MALLOC_NORMAL_ONLY,
            MemFlags::HugeFirstP2P => ACL_MEM_MALLOC_HUGE_FIRST_P2P,
            MemFlags::HugeOnlyP2P => ACL_MEM_MALLOC_HUGE_ONLY_P2P,
            MemFlags::NormalOnlyP2P => ACL_MEM_MALLOC_NORMAL_ONLY_P2P,
            MemFlags::Huge1GOnly => ACL_MEM_MALLOC_HUGE1G_ONLY,
            MemFlags::Huge1GOnlyP2P => ACL_MEM_MALLOC_HUGE1G_ONLY_P2P,
        }
    }

    /// The C allocation policy of this flag.
    pub fn as_policy(&self) -> (r: aclrtMemMallocPolicy)
        ensures
            r == self.policy(),
    {
        match self {
            MemFlags::HugeFirst => ACL_MEM_MALLOC_HUGE_FIRST,
            MemFlags::HugeOnly => ACL_MEM_MALLOC_HUGE_ONLY,
            MemFlags::NormalOnly => ACL_MEM_MALLOC_NORMAL_ONLY,
            MemFlags::HugeFirstP2P => ACL_MEM_MALLOC_HUGE_FIRST_P2P,
            MemFlags::HugeOnlyP2P => ACL_MEM_MALLOC_HUGE_ONLY_P2P,
            MemFlags::NormalOnlyP2P => ACL_MEM_MALLOC_NORMAL_ONLY_P2P,
            MemFlags::Huge1GOnly => ACL_MEM_MALLOC_HUGE1G_ONLY,
            MemFlags::Huge1GOnlyP2P => ACL_MEM_MALLOC_HUGE1G_ONLY_P2P,
        }
    }
}

/// Distinct flags select distinct policies, and every policy is a plain
/// allocation policy (`0..8`), never a bandwidth or access flag.
pub proof fn lemma_mem_flags_policy_distinct(a: MemFlags, b: MemFlags)
    ensures
        a.policy() == b.policy() ==> a == b,
        0 <= a.policy() < 8,
{
}

/// Device memory buffer.
///
/// This build links no NPU runtime, so no buffer is ever allocated; the
/// type carries no memory.
#[derive(Debug)]
pub struct DeviceBuffer {}

impl DeviceBuffer {
    /// Allocates `size` bytes on the calling thread's device with policy
    /// `flags`.
    ///
    /// This build links no NPU runtime: the call always fails with the
    /// "runtime not linked" error.
    pub fn allocate(size: usize, flags: MemFlags) -> (r: Result<DeviceBuffer, Error>)
        ensures
            fails_unavailable(r),
    {
        Err(unavailable())
    }

    /// Address of the device memory (always `0` in this build).
    pub fn as_ptr(&self) -> (r: usize)
        ensures
            r == 0,
    {
        0
    }

    /// Size of the buffer in bytes (always `0` in this build).
    pub fn len(&self) -> (r: usize)
        ensures
            r == 0,
    {
        0
    }

    /// Whether the buffer is empty (`len() == 0`; always `true` in this
    /// build).
    pub fn is_empty(&self) -> (r: bool)
        ensures
            r,
    {
        true
    }
}

/// Page-locked host memory that the device can access directly.
///
/// This build links no NPU runtime, so no buffer is ever allocated; the
/// type carries no memory.
#[derive(Debug)]
pub struct HostBuffer {}

impl HostBuffer {
    /// Allocates `size` bytes of page-locked host memory.
    ///
    /// This build links no NPU runtime: the call always fails with the
    /// "runtime not linked" error.
    pub fn allocate(size: usize) -> (r: Result<HostBuffer, Error>)
        ensures
            fails_unavailable(r),
    {
        Err(unavailable())
    }

    /// Address of the host memory for reading (always `0` in this build).
    pub fn as_ptr(&self) -> (r: usize)
        ensures
            r == 0,
    {
        0
    }

    /// Address of the host memory for writing (always `0` in this build).
    pub fn as_mut_ptr(&self) -> (r: usize)
        ensures
            r == 0,
    {
        0
    }

    /// Size of the buffer in bytes (always `0` in this build).
    pub fn len(&self) -> (r: usize)
        ensures
            r == 0,
    {
        0
    }

    /// Whether the buffer is empty (`len() == 0`; always `true` in this
    /// build).
    pub fn is_empty(&self) -> (r: bool)
        ensures
            r,
    {
        true
    }
}

/// Direction of a memory copy.
#[derive(Debug, Clone, Copy, PartialEq, Eq, Structural)]
pub enum MemcpyKind {
    /// Host to device.
    HostToDevice,
    /// Device to host.
    DeviceToHost,
    /// Device to device.
    DeviceToDevice,
}

impl MemcpyKind {
    /// The C copy direction of this kind.
    pub open spec fn code(self) -> aclrtMemcpyKind {
        match self {
            MemcpyKind::HostToDevice => ACL_MEMCPY_HOST_TO_DEVICE,
            MemcpyKind::DeviceToHost => ACL_MEMCPY_DEVICE_TO_HOST,
            MemcpyKind::DeviceToDevice => ACL_MEMCPY_DEVICE_TO_DEVICE,
        }
    }

    /// The C copy direction of this kind.
    pub fn as_acl(&self) -> (r: aclrtMemcpyKind)
        ensures
            r == self.code(),
    {
        match self {
            MemcpyKind::HostToDevice => ACL_MEMCPY_HOST_TO_DEVICE,
            MemcpyKind::DeviceToHost => ACL_MEMCPY_DEVICE_TO_HOST,
            MemcpyKind::DeviceToDevice => ACL_MEMCPY_DEVICE_TO_DEVICE,
        }
    }
}

/// Distinct copy kinds select distinct C directions, none of them the
/// host-to-host or automatic direction.
pub proof fn lemma_memcpy_kind_code_distinct(a: MemcpyKind, b: MemcpyKind)
    ensures
        a.code() == b.code() ==> a == b,
        1 <= a.code() <= 3,
{
}

/// Copies `count` bytes from address `src` to address `dst` in direction
/// `kind`, waiting until the copy is done.
///
/// This build links no NPU runtime: the call always fails with the
/// "runtime not linked" error and touches no memory.
pub fn memcpy(kind: MemcpyKind, dst: usize, src: usize, count: usize) -> (r: Result<(), Error>)
    ensures
        fails_unavailable(r),
{
    Err(unavailable())
}

/// Queues a copy of `count` bytes from address `src` to address `dst` in
/// direction `kind` on `stream`.
///
/// This build links no NPU runtime: the call always fails with the
/// "runtime not linked" error and touches no memory.
pub fn memcpy_async(
    kind: MemcpyKind,
    dst: usize,
    src: usize,
    count: usize,
    stream: &Stream,
) -> (r: Result<(), Error>)
    ensures
        fails_unavailable(r),
{
    Err(unavailable())
}

} // verus!
