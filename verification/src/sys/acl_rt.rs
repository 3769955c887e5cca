//! Version query sizes and the package names whose version can be asked.

use vstd::prelude::*;

verus! {

/// Size in bytes of the buffer that receives a version string.
pub const ACL_PKG_VERSION_MAX_SIZE: usize = 128;

/// Size in bytes of the buffer that receives one part of a version.
pub const ACL_PKG_VERSION_PARTS_MAX_SIZE: usize = 64;

/// Software package whose version is asked (C enum `aclCANNPackageName`).
#[allow(non_camel_case_types)]
pub enum aclCANNPackageName {
    /// The CANN main package.
    ACL_PKG_NAME_CANN,
    /// The runtime component.
    ACL_PKG_NAME_RUNTIME,
    /// The compiler component.
    ACL_PKG_NAME_COMPILER,
    /// The collective communication library.
    ACL_PKG_NAME_HCCL,
    /// The toolkit.
    ACL_PKG_NAME_TOOLKIT,
    /// The operator package.
    ACL_PKG_NAME_OPP,
    /// The operator kernel package.
    ACL_PKG_NAME_OPP_KERNEL,
    /// The driver.
    ACL_PKG_NAME_DRIVER,
}

} // verus!
