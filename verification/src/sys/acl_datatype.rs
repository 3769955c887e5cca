//! Tensor data type codes (`aclDataType`) and memory layout format codes
//! (`aclFormat`) of the C interface.

use vstd::prelude::*;

verus! {

/// Tensor data type code (a C `int`).
#[allow(non_camel_case_types)]
pub type aclDataType = i32;

pub const ACL_DT_UNDEFINED: aclDataType = -1;
pub const ACL_FLOAT: aclDataType = 0;
pub const ACL_FLOAT16: aclDataType = 1;
pub const ACL_INT8: aclDataType = 2;
pub const ACL_INT32: aclDataType = 3;
pub const ACL_UINT8: aclDataType = 4;
pub const ACL_INT16: aclDataType = 6;
pub const ACL_UINT16: aclDataType = 7;
pub const ACL_UINT32: aclDataType = 8;
pub const ACL_INT64: aclDataType = 9;
pub const ACL_UINT64: aclDataType = 10;
pub const ACL_DOUBLE: aclDataType = 11;
pub const ACL_BOOL: aclDataType = 12;
pub const ACL_STRING: aclDataType = 13;
pub const ACL_COMPLEX64: aclDataType = 16;
pub const ACL_COMPLEX128: aclDataType = 17;
pub const ACL_BF16: aclDataType = 27;
pub const ACL_INT4: aclDataType = 29;
pub const ACL_UINT1: aclDataType = 30;
pub const ACL_COMPLEX32: aclDataType = 33;
pub const ACL_HIFLOAT8: aclDataType = 34;
pub const ACL_FLOAT8_E5M2: aclDataType = 35;
pub const ACL_FLOAT8_E4M3FN: aclDataType = 36;
pub const ACL_FLOAT8_E8M0: aclDataType = 37;
pub const ACL_FLOAT6_E3M2: aclDataType = 38;
pub const ACL_FLOAT6_E2M3: aclDataType = 39;
pub const ACL_FLOAT4_E2M1: aclDataType = 40;
pub const ACL_FLOAT4_E1M2: aclDataType = 41;

/// Tensor memory layout format code (a C `int`).
#[allow(non_camel_case_types)]
pub type aclFormat = i32;

pub const ACL_FORMAT_UNDEFINED: aclFormat = -1;
pub const ACL_FORMAT_NCHW: aclFormat = 0;
pub const ACL_FORMAT_NHWC: aclFormat = 1;
pub const ACL_FORMAT_ND: aclFormat = 2;
pub const ACL_FORMAT_NC1HWC0: aclFormat = 3;
pub const ACL_FORMAT_FRACTAL_Z: aclFormat = 4;
pub const ACL_FORMAT_NC1HWC0_C04: aclFormat = 12;
pub const ACL_FORMAT_HWCN: aclFormat = 16;
pub const ACL_FORMAT_NDHWC: aclFormat = 27;
pub const ACL_FORMAT_FRACTAL_NZ: aclFormat = 29;
pub const ACL_FORMAT_NCDHW: aclFormat = 30;
pub const ACL_FORMAT_NDC1HWC0: aclFormat = 32;
pub const ACL_FRACTAL_Z_3D: aclFormat = 33;
pub const ACL_FORMAT_NC: aclFormat = 35;
pub const ACL_FORMAT_NCL: aclFormat = 47;
pub const ACL_FORMAT_FRACTAL_NZ_C0_16: aclFormat = 50;
pub const ACL_FORMAT_FRACTAL_NZ_C0_32: aclFormat = 51;
pub const ACL_FORMAT_FRACTAL_NZ_C0_2: aclFormat = 52;
pub const ACL_FORMAT_FRACTAL_NZ_C0_4: aclFormat = 53;
pub const ACL_FORMAT_FRACTAL_NZ_C0_8: aclFormat = 54;

} // verus!
