//! Constants and enum values of the CANN C interface.

pub mod acl_base_rt;
pub mod acl_datatype;
pub mod acl_error_code;
pub mod acl_grph;
pub mod acl_memory;
pub mod acl_rt;
pub mod aclnn_ops;
