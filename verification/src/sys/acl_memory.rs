//! Device memory allocation policies (`aclrtMemMallocPolicy`) and memory
//! copy directions (`aclrtMemcpyKind`) of the C interface.

use vstd::prelude::*;

verus! {

/// Device memory allocation policy (a C `int`); the bandwidth and access
/// flags can be or-ed onto a policy.
#[allow(non_camel_case_types)]
pub type aclrtMemMallocPolicy = i32;

pub const ACL_MEM_MALLOC_HUGE_FIRST: aclrtMemMallocPolicy = 0;
pub const ACL_MEM_MALLOC_HUGE_ONLY: aclrtMemMallocPolicy = 1;
pub const ACL_MEM_MALLOC_NORMAL_ONLY: aclrtMemMallocPolicy = 2;
pub const ACL_MEM_MALLOC_HUGE_FIRST_P2P: aclrtMemMallocPolicy = 3;
pub const ACL_MEM_MALLOC_HUGE_ONLY_P2P: aclrtMemMallocPolicy = 4;
pub const ACL_MEM_MALLOC_NORMAL_ONLY_P2P: aclrtMemMallocPolicy = 5;
pub const ACL_MEM_MALLOC_HUGE1G_ONLY: aclrtMemMallocPolicy = 6;
pub const ACL_MEM_MALLOC_HUGE1G_ONLY_P2P: aclrtMemMallocPolicy = 7;
pub const ACL_MEM_TYPE_LOW_BAND_WIDTH: aclrtMemMallocPolicy = 0x0100;
pub const ACL_MEM_TYPE_HIGH_BAND_WIDTH: aclrtMemMallocPolicy = 0x1000;
pub const ACL_MEM_ACCESS_USER_SPACE_READONLY: aclrtMemMallocPolicy = 0x100000;

/// Memory copy direction (a C `int`).
#[allow(non_camel_case_types)]
pub type aclrtMemcpyKind = i32;

pub const ACL_MEMCPY_HOST_TO_HOST: aclrtMemcpyKind = 0;
pub const ACL_MEMCPY_HOST_TO_DEVICE: aclrtMemcpyKind = 1;
pub const ACL_MEMCPY_DEVICE_TO_HOST: aclrtMemcpyKind = 2;
pub const ACL_MEMCPY_DEVICE_TO_DEVICE: aclrtMemcpyKind = 3;
pub const ACL_MEMCPY_DEFAULT: aclrtMemcpyKind = 4;
pub const ACL_MEMCPY_HOST_TO_BUF_TO_DEVICE: aclrtMemcpyKind = 5;
pub const ACL_MEMCPY_INNER_DEVICE_TO_DEVICE: aclrtMemcpyKind = 6;
pub const ACL_MEMCPY_INTER_DEVICE_TO_DEVICE: aclrtMemcpyKind = 7;

} // verus!
