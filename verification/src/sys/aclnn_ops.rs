//! Status type of the operator library (`aclnnStatus`).

use vstd::prelude::*;

verus! {

/// Status code returned by operator library calls (a C `int`);
/// `ACLNN_SUCCESS` (0) is success.
#[allow(non_camel_case_types)]
pub type aclnnStatus = i32;

pub const ACLNN_SUCCESS: aclnnStatus = 0;

} // verus!
