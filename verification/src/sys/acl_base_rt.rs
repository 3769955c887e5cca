//! The runtime's status type (`aclError`) and its general codes.

use vstd::prelude::*;

verus! {

/// Status code returned by runtime calls (a C `int`); `ACL_SUCCESS` (0)
/// is success.
#[allow(non_camel_case_types)]
pub type aclError = i32;

pub const ACL_SUCCESS: aclError = 0;
pub const ACL_ERROR_INVALID_PARAM: aclError = 100000;
pub const ACL_ERROR_UNINITIALIZE: aclError = 100001;
pub const ACL_ERROR_REPEAT_INITIALIZE: aclError = 100002;
pub const ACL_ERROR_INVALID_FILE: aclError = 100003;
pub const ACL_ERROR_WRITE_FILE: aclError = 100004;
pub const ACL_ERROR_INVALID_FILE_SIZE: aclError = 100005;
pub const ACL_ERROR_PARSE_FILE: aclError = 100006;
pub const ACL_ERROR_FILE_MISSING_ATTR: aclError = 100007;
pub const ACL_ERROR_FILE_ATTR_INVALID: aclError = 100008;

} // verus!
