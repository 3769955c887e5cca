//! Tensors, tensor lists and scalars of the operator library, and the safe
//! data type and format enums with their mapping to the C codes.
//!
//! The mappings are proved to be inverse to each other: every enum value
//! maps to a distinct code, and reading a code back gives the value it came
//! from; codes that no value maps to read back as `None`.
//!
//! Tensor handles belong to the device context of the creating thread; the
//! types here are neither `Send` nor `Sync`.

use crate::error::{fails_unavailable, prefixed_number, unavailable, Error};
use crate::sys::acl_datatype::{
    aclDataType, aclFormat, ACL_BF16, ACL_BOOL, ACL_DOUBLE, ACL_FLOAT, ACL_FLOAT16,
    ACL_FLOAT8_E4M3FN, ACL_FLOAT8_E5M2, ACL_FORMAT_FRACTAL_NZ, ACL_FORMAT_FRACTAL_NZ_C0_16,
    ACL_FORMAT_FRACTAL_NZ_C0_2, ACL_FORMAT_FRACTAL_NZ_C0_32, ACL_FORMAT_FRACTAL_NZ_C0_4,
    ACL_FORMAT_FRACTAL_NZ_C0_8, ACL_FORMAT_FRACTAL_Z, ACL_FORMAT_HWCN, ACL_FORMAT_NC,
    ACL_FORMAT_NC1HWC0, ACL_FORMAT_NC1HWC0_C04, ACL_FORMAT_NCDHW, ACL_FORMAT_NCHW,
    ACL_FORMAT_NCL, ACL_FORMAT_ND, ACL_FORMAT_NDC1HWC0, ACL_FORMAT_NDHWC, ACL_FORMAT_NHWC,
    ACL_FRACTAL_Z_3D, ACL_INT16, ACL_INT32, ACL_INT64, ACL_INT8, ACL_UINT16, ACL_UINT32,
    ACL_UINT64, ACL_UINT8,
};
use crate::text::int_decimal;
use vstd::prelude::*;

verus! {

/// Tensor element type (the safe subset of the C `aclDataType` codes).
///
/// Codes with no value here (strings, complex numbers, and the like) read
/// back as `None` from [`DataType::from_acl`].
#[derive(Debug, Clone, Copy, PartialEq, Eq, Structural)]
pub enum DataType {
    /// 16-bit float.
    Fp16,
    /// 32-bit float.
    Fp32,
    /// 64-bit float.
    Fp64,
    /// bfloat16.
    Bf16,
    /// 8-bit signed integer.
    Int8,
    /// 16-bit signed integer.
    Int16,
    /// 32-bit signed integer.
    Int32,
    /// 64-bit signed integer.
    Int64,
    /// 8-bit unsigned integer.
    Uint8,
    /// 16-bit unsigned integer.
    Uint16,
    /// 32-bit unsigned integer.
    Uint32,
    /// 64-bit unsigned integer.
    Uint64,
    /// Boolean.
    Bool,
    /// 8-bit float, E5M2.
    Float8E5m2,
    /// 8-bit float, E4M3FN.
    Float8E4m3fn,
}

impl DataType {
    /// The C code of this data type.
    pub open spec fn code(self) -> aclDataType {
        match self {
            DataType::Fp16 => ACL_FLOAT16,
            DataType::Fp32 => ACL_FLOAT,
            DataType::Fp64 => ACL_DOUBLE,
            DataType::Bf16 => ACL_BF16,
            DataType::Int8 => ACL_INT8,
            DataType::Int16 => ACL_INT16,
            DataType::Int32 => ACL_INT32,
            DataType::Int64 => ACL_INT64,
            DataType::Uint8 => ACL_UINT8,
            DataType::Uint16 => ACL_UINT16,
            DataType::Uint32 => ACL_UINT32,
            DataType::Uint64 => ACL_UINT64,
            DataType::Bool => ACL_BOOL,
            DataType::Float8E5m2 => ACL_FLOAT8_E5M2,
            DataType::Float8E4m3fn => ACL_FLOAT8_E4M3FN,
        }
    }

    /// The data type whose code is `c`, if there is one.
    pub open spec fn with_code(c: aclDataType) -> Option<DataType> {
        if exists|d: DataType| d.code() == c {
            Some(choose|d: DataType| d.code() == c)
        } else {
            None
        }
    }

    /// The C code of this data type.
    pub fn as_acl(&self) -> (r: aclDataType)
        ensures
            r == self.code(),
    {
        match self {
            DataType::Fp16 => ACL_FLOAT16,
            DataType::Fp32 => ACL_FLOAT,
            DataType::Fp64 => ACL_DOUBLE,
            DataType::Bf16 => ACL_BF16,
            DataType::Int8 => ACL_INT8,
            DataType::Int16 => ACL_INT16,
            DataType::Int32 => ACL_INT32,
            DataType::Int64 => ACL_INT64,
            DataType::Uint8 => ACL_UINT8,
            DataType::Uint16 => ACL_UINT16,
            DataType::Uint32 => ACL_UINT32,
            DataType::Uint64 => ACL_UINT64,
            DataType::Bool => ACL_BOOL,
            DataType::Float8E5m2 => ACL_FLOAT8_E5M2,
            DataType::Float8E4m3fn => ACL_FLOAT8_E4M3FN,
        }
    }

    /// The data type whose code is `dt`, or `None` for a code that no data
    /// type here maps to.
    pub fn from_acl(dt: aclDataType) -> (r: Option<DataType>)
        ensures
            r == DataType::with_code(dt),
    {
        proof {
            lemma_data_type_code_injective();
        }
        let r = if dt == ACL_FLOAT16 {
            Some(DataType::Fp16)
        } else if dt == ACL_FLOAT {
            Some(DataType::Fp32)
        } else if dt == ACL_DOUBLE {
            Some(DataType::Fp64)
        } else if dt == ACL_BF16 {
            Some(DataType::Bf16)
        } else if dt == ACL_INT8 {
            Some(DataType::Int8)
        } else if dt == ACL_INT16 {
            Some(DataType::Int16)
        } else if dt == ACL_INT32 {
            Some(DataType::Int32)
        } else if dt == ACL_INT64 {
            Some(DataType::Int64)
        } else if dt == ACL_UINT8 {
            Some(DataType::Uint8)
        } else if dt == ACL_UINT16 {
            Some(DataType::Uint16)
        } else if dt == ACL_UINT32 {
            Some(DataType::Uint32)
        } else if dt == ACL_UINT64 {
            Some(DataType::Uint64)
        } else if dt == ACL_BOOL {
            Some(DataType::Bool)
        } else if dt == ACL_FLOAT8_E5M2 {
            Some(DataType::Float8E5m2)
        } else if dt == ACL_FLOAT8_E4M3FN {
            Some(DataType::Float8E4m3fn)
        } else {
            None
        };
        proof {
            if let Some(d) = r {
                assert(d.code() == dt);
            } else {
                assert forall|d: DataType| d.code() != dt by {}
            }
        }
        r
    }
}

/// Distinct data types have distinct codes.
pub proof fn lemma_data_type_code_injective()
    ensures
        forall|a: DataType, b: DataType| #[trigger] a.code() == #[trigger] b.code() ==> a == b,
{
}

/// Mapping a data type to its code and reading the code back gives the
/// same data type; a code reads back to a data type exactly when that data
/// type maps to it.
pub proof fn lemma_data_type_roundtrip(d: DataType, c: aclDataType)
    ensures
        DataType::with_code(d.code()) == Some(d),
        DataType::with_code(c) == Some(d) <==> d.code() == c,
{
    lemma_data_type_code_injective();
}

/// Every data type maps to the C code of the same name: 16-bit float 1,
/// 32-bit float 0, 64-bit float 11, bfloat16 27, signed integers of 8, 16,
/// 32 and 64 bits 2, 6, 3 and 9, unsigned integers of 8, 16, 32 and 64
/// bits 4, 7, 8 and 10, boolean 12, 8-bit floats E5M2 35 and E4M3FN 36;
/// each of these codes reads back as that data type, and negative codes
/// or codes above 54 read back as nothing.
pub proof fn lemma_data_type_codes()
    ensures
        DataType::Fp16.code() == 1,
        DataType::Fp32.code() == 0,
        DataType::Fp64.code() == 11,
        DataType::Bf16.code() == 27,
        DataType::Int8.code() == 2,
        DataType::Int16.code() == 6,
        DataType::Int32.code() == 3,
        DataType::Int64.code() == 9,
        DataType::Uint8.code() == 4,
        DataType::Uint16.code() == 7,
        DataType::Uint32.code() == 8,
        DataType::Uint64.code() == 10,
        DataType::Bool.code() == 12,
        DataType::Float8E5m2.code() == 35,
        DataType::Float8E4m3fn.code() == 36,
        DataType::with_code(1) == Some(DataType::Fp16),
        DataType::with_code(0) == Some(DataType::Fp32),
        DataType::with_code(11) == Some(DataType::Fp64),
        DataType::with_code(27) == Some(DataType::Bf16),
        DataType::with_code(2) == Some(DataType::Int8),
        DataType::with_code(6) == Some(DataType::Int16),
        DataType::with_code(3) == Some(DataType::Int32),
        DataType::with_code(9) == Some(DataType::Int64),
        DataType::with_code(4) == Some(DataType::Uint8),
        DataType::with_code(7) == Some(DataType::Uint16),
        DataType::with_code(8) == Some(DataType::Uint32),
        DataType::with_code(10) == Some(DataType::Uint64),
        DataType::with_code(12) == Some(DataType::Bool),
        DataType::with_code(35) == Some(DataType::Float8E5m2),
        DataType::with_code(36) == Some(DataType::Float8E4m3fn),
        forall|c: i32| (c < 0 || c > 54) ==> DataType::with_code(c) is None,
{
    lemma_data_type_code_injective();
    lemma_data_type_roundtrip(DataType::Fp16, 1);
    lemma_data_type_roundtrip(DataType::Fp32, 0);
    lemma_data_type_roundtrip(DataType::Fp64, 11);
    lemma_data_type_roundtrip(DataType::Bf16, 27);
    lemma_data_type_roundtrip(DataType::Int8, 2);
    lemma_data_type_roundtrip(DataType::Int16, 6);
    lemma_data_type_roundtrip(DataType::Int32, 3);
    lemma_data_type_roundtrip(DataType::Int64, 9);
    lemma_data_type_roundtrip(DataType::Uint8, 4);
    lemma_data_type_roundtrip(DataType::Uint16, 7);
    lemma_data_type_roundtrip(DataType::Uint32, 8);
    lemma_data_type_roundtrip(DataType::Uint64, 10);
    lemma_data_type_roundtrip(DataType::Bool, 12);
    lemma_data_type_roundtrip(DataType::Float8E5m2, 35);
    lemma_data_type_roundtrip(DataType::Float8E4m3fn, 36);
    assert forall|c: i32| (c < 0 || c > 54) implies DataType::with_code(c) is None by {
        assert(forall|d: DataType| d.code() != c);
    }
}

/// Tensor memory layout format (the safe subset of the C `aclFormat`
/// codes).
#[derive(Debug, Clone, Copy, PartialEq, Eq, Structural)]
pub enum Format {
    /// NCHW, four dimensions.
    Nchw,
    /// NHWC, four dimensions.
    Nhwc,
    /// Generic N dimensions.
    Nd,
    /// Five dimensions, C1 = C / 16, C0 = 16.
    Nc1Hwc0,
    /// Fractal Z.
    FractalZ,
    /// NC1HWC0 with C0 = 4.
    Nc1Hwc0C04,
    /// HWCN.
    Hwcn,
    /// NDHWC, five dimensions.
    Ndhwc,
    /// Fractal NZ.
    FractalNz,
    /// NCDHW, five dimensions.
    Ncdhw,
    /// NDC1HWC0.
    Ndc1Hwc0,
    /// Three-dimensional fractal Z.
    FractalZ3d,
    /// NC, two dimensions.
    Nc,
    /// NCL, three dimensions.
    Ncl,
    /// Fractal NZ with C0 = 16.
    FractalNzC0_16,
    /// Fractal NZ with C0 = 32.
    FractalNzC0_32,
    /// Fractal NZ with C0 = 2.
    FractalNzC0_2,
    /// Fractal NZ with C0 = 4.
    FractalNzC0_4,
    /// Fractal NZ with C0 = 8.
    FractalNzC0_8,
}

impl Format {
    /// The C code of this format.
    pub open spec fn code(self) -> aclFormat {
        match self {
            Format::Nchw => ACL_FORMAT_NCHW,
            Format::Nhwc => ACL_FORMAT_NHWC,
            Format::Nd => ACL_FORMAT_ND,
            Format::Nc1Hwc0 => ACL_FORMAT_NC1HWC0,
            Format::FractalZ => ACL_FORMAT_FRACTAL_Z,
            Format::Nc1Hwc0C04 => ACL_FORMAT_NC1HWC0_C04,
            Format::Hwcn => ACL_FORMAT_HWCN,
            Format::Ndhwc => ACL_FORMAT_NDHWC,
            Format::FractalNz => ACL_FORMAT_FRACTAL_NZ,
            Format::Ncdhw => ACL_FORMAT_NCDHW,
            Format::Ndc1Hwc0 => ACL_FORMAT_NDC1HWC0,
            Format::FractalZ3d => ACL_FRACTAL_Z_3D,
            Format::Nc => ACL_FORMAT_NC,
            Format::Ncl => ACL_FORMAT_NCL,
            Format::FractalNzC0_16 => ACL_FORMAT_FRACTAL_NZ_C0_16,
            Format::FractalNzC0_32 => ACL_FORMAT_FRACTAL_NZ_C0_32,
            Format::FractalNzC0_2 => ACL_FORMAT_FRACTAL_NZ_C0_2,
            Format::FractalNzC0_4 => ACL_FORMAT_FRACTAL_NZ_C0_4,
            Format::FractalNzC0_8 => ACL_FORMAT_FRACTAL_NZ_C0_8,
        }
    }

    /// The format whose code is `c`, if there is one.
    pub open spec fn with_code(c: aclFormat) -> Option<Format> {
        if exists|f: Format| f.code() == c {
            Some(choose|f: Format| f.code() == c)
        } else {
            None
        }
    }

    /// The C code of this format.
    pub fn as_acl(&self) -> (r: aclFormat)
        ensures
            r == self.code(),
    {
        match self {
            Format::Nchw => ACL_FORMAT_NCHW,
            Format::Nhwc => ACL_FORMAT_NHWC,
            Format::Nd => ACL_FORMAT_ND,
            Format::Nc1Hwc0 => ACL_FORMAT_NC1HWC0,
            Format::FractalZ => ACL_FORMAT_FRACTAL_Z,
            Format::Nc1Hwc0C04 => ACL_FORMAT_NC1HWC0_C04,
            Format::Hwcn => ACL_FORMAT_HWCN,
            Format::Ndhwc => ACL_FORMAT_NDHWC,
            Format::FractalNz => ACL_FORMAT_FRACTAL_NZ,
            Format::Ncdhw => ACL_FORMAT_NCDHW,
            Format::Ndc1Hwc0 => ACL_FORMAT_NDC1HWC0,
            Format::FractalZ3d => ACL_FRACTAL_Z_3D,
            Format::Nc => ACL_FORMAT_NC,
            Format::Ncl => ACL_FORMAT_NCL,
            Format::FractalNzC0_16 => ACL_FORMAT_FRACTAL_NZ_C0_16,
            Format::FractalNzC0_32 => ACL_FORMAT_FRACTAL_NZ_C0_32,
            Format::FractalNzC0_2 => ACL_FORMAT_FRACTAL_NZ_C0_2,
            Format::FractalNzC0_4 => ACL_FORMAT_FRACTAL_NZ_C0_4,
            Format::FractalNzC0_8 => ACL_FORMAT_FRACTAL_NZ_C0_8,
        }
    }

    /// The format whose code is `fmt`, or `None` for a code that no format
    /// here maps to.
    pub fn from_acl(fmt: aclFormat) -> (r: Option<Format>)
        ensures
            r == Format::with_code(fmt),
    {
        proof {
            lemma_format_code_injective();
        }
        let r = if fmt == ACL_FORMAT_NCHW {
            Some(Format::Nchw)
        } else if fmt == ACL_FORMAT_NHWC {
            Some(Format::Nhwc)
        } else if fmt == ACL_FORMAT_ND {
            Some(Format::Nd)
        } else if fmt == ACL_FORMAT_NC1HWC0 {
            Some(Format::Nc1Hwc0)
        } else if fmt == ACL_FORMAT_FRACTAL_Z {
            Some(Format::FractalZ)
        } else if fmt == ACL_FORMAT_NC1HWC0_C04 {
            Some(Format::Nc1Hwc0C04)
        } else if fmt == ACL_FORMAT_HWCN {
            Some(Format::Hwcn)
        } else if fmt == ACL_FORMAT_NDHWC {
            Some(Format::Ndhwc)
        } else if fmt == ACL_FORMAT_FRACTAL_NZ {
            Some(Format::FractalNz)
        } else if fmt == ACL_FORMAT_NCDHW {
            Some(Format::Ncdhw)
        } else if fmt == ACL_FORMAT_NDC1HWC0 {
            Some(Format::Ndc1Hwc0)
        } else if fmt == ACL_FRACTAL_Z_3D {
            Some(Format::FractalZ3d)
        } else if fmt == ACL_FORMAT_NC {
            Some(Format::Nc)
        } else if fmt == ACL_FORMAT_NCL {
            Some(Format::Ncl)
        } else if fmt == ACL_FORMAT_FRACTAL_NZ_C0_16 {
            Some(Format::FractalNzC0_16)
        } else if fmt == ACL_FORMAT_FRACTAL_NZ_C0_32 {
            Some(Format::FractalNzC0_32)
        } else if fmt == ACL_FORMAT_FRACTAL_NZ_C0_2 {
            Some(Format::FractalNzC0_2)
        } else if fmt == ACL_FORMAT_FRACTAL_NZ_C0_4 {
            Some(Format::FractalNzC0_4)
        } else if fmt == ACL_FORMAT_FRACTAL_NZ_C0_8 {
            Some(Format::FractalNzC0_8)
        } else {
            None
        };
        proof {
            if let Some(f) = r {
                assert(f.code() == fmt);
            } else {
                assert forall|f: Format| f.code() != fmt by {}
            }
        }
        r
    }
}

/// Distinct formats have distinct codes.
pub proof fn lemma_format_code_injective()
    ensures
        forall|a: Format, b: Format| #[trigger] a.code() == #[trigger] b.code() ==> a == b,
{
}

/// Mapping a format to its code and reading the code back gives the same
/// format; a code reads back to a format exactly when that format maps to
/// it.
pub proof fn lemma_format_roundtrip(f: Format, c: aclFormat)
    ensures
        Format::with_code(f.code()) == Some(f),
        Format::with_code(c) == Some(f) <==> f.code() == c,
{
    lemma_format_code_injective();
}


/// Every format maps to the C code of the same name: NCHW 0, NHWC 1, ND 2,
/// NC1HWC0 3, fractal Z 4, NC1HWC0 with C0 = 4 12, HWCN 16, NDHWC 27,
/// fractal NZ 29, NCDHW 30, NDC1HWC0 32, 3-D fractal Z 33, NC 35, NCL 47,
/// fractal NZ with C0 = 16, 32, 2, 4, 8 50, 51, 52, 53, 54; each of these
/// codes reads back as that format, and negative codes or codes above 54
/// read back as nothing.
pub proof fn lemma_format_codes()
    ensures
        Format::Nchw.code() == 0,
        Format::Nhwc.code() == 1,
        Format::Nd.code() == 2,
        Format::Nc1Hwc0.code() == 3,
        Format::FractalZ.code() == 4,
        Format::Nc1Hwc0C04.code() == 12,
        Format::Hwcn.code() == 16,
        Format::Ndhwc.code() == 27,
        Format::FractalNz.code() == 29,
        Format::Ncdhw.code() == 30,
        Format::Ndc1Hwc0.code() == 32,
        Format::FractalZ3d.code() == 33,
        Format::Nc.code() == 35,
        Format::Ncl.code() == 47,
        Format::FractalNzC0_16.code() == 50,
        Format::FractalNzC0_32.code() == 51,
        Format::FractalNzC0_2.code() == 52,
        Format::FractalNzC0_4.code() == 53,
        Format::FractalNzC0_8.code() == 54,
        Format::with_code(0) == Some(Format::Nchw),
        Format::with_code(1) == Some(Format::Nhwc),
        Format::with_code(2) == Some(Format::Nd),
        Format::with_code(3) == Some(Format::Nc1Hwc0),
        Format::with_code(4) == Some(Format::FractalZ),
        Format::with_code(12) == Some(Format::Nc1Hwc0C04),
        Format::with_code(16) == Some(Format::Hwcn),
        Format::with_code(27) == Some(Format::Ndhwc),
        Format::with_code(29) == Some(Format::FractalNz),
        Format::with_code(30) == Some(Format::Ncdhw),
        Format::with_code(32) == Some(Format::Ndc1Hwc0),
        Format::with_code(33) == Some(Format::FractalZ3d),
        Format::with_code(35) == Some(Format::Nc),
        Format::with_code(47) == Some(Format::Ncl),
        Format::with_code(50) == Some(Format::FractalNzC0_16),
        Format::with_code(51) == Some(Format::FractalNzC0_32),
        Format::with_code(52) == Some(Format::FractalNzC0_2),
        Format::with_code(53) == Some(Format::FractalNzC0_4),
        Format::with_code(54) == Some(Format::FractalNzC0_8),
        forall|c: i32| (c < 0 || c > 54) ==> Format::with_code(c) is None,
{
    lemma_format_code_injective();
    lemma_format_roundtrip(Format::Nchw, 0);
    lemma_format_roundtrip(Format::Nhwc, 1);
    lemma_format_roundtrip(Format::Nd, 2);
    lemma_format_roundtrip(Format::Nc1Hwc0, 3);
    lemma_format_roundtrip(Format::FractalZ, 4);
    lemma_format_roundtrip(Format::Nc1Hwc0C04, 12);
    lemma_format_roundtrip(Format::Hwcn, 16);
    lemma_format_roundtrip(Format::Ndhwc, 27);
    lemma_format_roundtrip(Format::FractalNz, 29);
    lemma_format_roundtrip(Format::Ncdhw, 30);
    lemma_format_roundtrip(Format::Ndc1Hwc0, 32);
    lemma_format_roundtrip(Format::FractalZ3d, 33);
    lemma_format_roundtrip(Format::Nc, 35);
    lemma_format_roundtrip(Format::Ncl, 47);
    lemma_format_roundtrip(Format::FractalNzC0_16, 50);
    lemma_format_roundtrip(Format::FractalNzC0_32, 51);
    lemma_format_roundtrip(Format::FractalNzC0_2, 52);
    lemma_format_roundtrip(Format::FractalNzC0_4, 53);
    lemma_format_roundtrip(Format::FractalNzC0_8, 54);
    assert forall|c: i32| (c < 0 || c > 54) implies Format::with_code(c) is None by {
        assert(forall|d: Format| d.code() != c);
    }
}

/// An operator-library tensor: the metadata (view shape, strides, offset,
/// format, storage shape) over data that the caller owns.
///
/// This build links no NPU runtime, so no tensor is ever created by
/// [`Tensor::new`]; the type carries no handle.
#[derive(Debug)]
pub struct Tensor {}

/// The error for a strides slice whose length differs from the number of
/// dimensions (the runtime reads one stride per dimension).
pub open spec fn is_strides_mismatch(e: Error) -> bool {
    e.code == -1 && e.message@ == "Tensor::new: strides 长度与 dims 长度不一致"@
}

/// The error for a data type code that no [`DataType`] maps to.
pub open spec fn is_unknown_data_type(e: Error, dt: aclDataType) -> bool {
    e.code == -1 && e.message@ == "无法识别的 aclDataType: "@ + int_decimal(dt as int)
}

/// The error for a format code that no [`Format`] maps to.
pub open spec fn is_unknown_format(e: Error, fmt: aclFormat) -> bool {
    e.code == -1 && e.message@ == "无法识别的 aclFormat: "@ + int_decimal(fmt as int)
}

impl Tensor {
    /// Creates the metadata of a tensor with view shape `dims`, element type
    /// `dt`, format `fmt`, element `offset` into its storage, per-dimension
    /// `strides` (row-major when `None`), storage shape `storage_dims` (the
    /// view shape when `None`) and data at address `data`.
    ///
    /// This build links no NPU runtime: the call always fails with the
    /// "runtime not linked" error.
    pub fn new(
        dims: &[i64],
        dt: DataType,
        fmt: Format,
        offset: i64,
        strides: Option<&[i64]>,
        storage_dims: Option<&[i64]>,
        data: usize,
    ) -> (r: Result<Tensor, Error>)
        ensures
            fails_unavailable(r),
    {
        Err(unavailable())
    }

    /// Checks the stride layout before a tensor is created: `strides`, when
    /// given, must hold exactly one stride per dimension of `dims`.
    pub fn check_strides(dims: &[i64], strides: Option<&[i64]>) -> (r: Result<(), Error>)
        ensures
            r is Ok <==> match strides {
                Some(s) => s@.len() == dims@.len(),
                None => true,
            },
            r matches Err(e) ==> is_strides_mismatch(e),
    {
        match strides {
            Some(s) => {
                if s.len() != dims.len() {
                    Err(
                        Error {
                            code: -1,
                            message: String::from_str(
                                "Tensor::new: strides 长度与 dims 长度不一致",
                            ),
                        },
                    )
                } else {
                    Ok(())
                }
            },
            None => Ok(()),
        }
    }

    /// The view shape (length of each dimension).
    ///
    /// This build links no NPU runtime: the call always fails with the
    /// "runtime not linked" error.
    pub fn shape(&self) -> (r: Result<Vec<i64>, Error>)
        ensures
            fails_unavailable(r),
    {
        Err(unavailable())
    }

    /// The element type.
    ///
    /// This build links no NPU runtime: the call always fails with the
    /// "runtime not linked" error.
    pub fn data_type(&self) -> (r: Result<DataType, Error>)
        ensures
            fails_unavailable(r),
    {
        Err(unavailable())
    }

    /// The memory layout format.
    ///
    /// This build links no NPU runtime: the call always fails with the
    /// "runtime not linked" error.
    pub fn format(&self) -> (r: Result<Format, Error>)
        ensures
            fails_unavailable(r),
    {
        Err(unavailable())
    }

    /// Turns the data type code that the runtime reports for a tensor into
    /// a [`DataType`], failing on a code that no data type maps to.
    pub fn data_type_from_code(dt: aclDataType) -> (r: Result<DataType, Error>)
        ensures
            match DataType::with_code(dt) {
                Some(d) => r == Ok::<DataType, Error>(d),
                None => r matches Err(e) && is_unknown_data_type(e, dt),
            },
    {
        match DataType::from_acl(dt) {
            Some(d) => Ok(d),
            None => Err(Error { code: -1, message: prefixed_number("无法识别的 aclDataType: ", dt as i64) }),
        }
    }

    /// Turns the format code that the runtime reports for a tensor into a
    /// [`Format`], failing on a code that no format maps to.
    pub fn format_from_code(fmt: aclFormat) -> (r: Result<Format, Error>)
        ensures
            match Format::with_code(fmt) {
                Some(f) => r == Ok::<Format, Error>(f),
                None => r matches Err(e) && is_unknown_format(e, fmt),
            },
    {
        match Format::from_acl(fmt) {
            Some(f) => Ok(f),
            None => Err(Error { code: -1, message: prefixed_number("无法识别的 aclFormat: ", fmt as i64) }),
        }
    }
}

/// A list of tensors for operators that take several inputs; the list does
/// not own its tensors.
///
/// This build links no NPU runtime, so no list is ever created.
#[derive(Debug)]
pub struct TensorList {}

impl TensorList {
    /// Creates a list over `tensors`.
    ///
    /// This build links no NPU runtime: the call always fails with the
    /// "runtime not linked" error.
    pub fn new(tensors: &[&Tensor]) -> (r: Result<TensorList, Error>)
        ensures
            fails_unavailable(r),
    {
        Err(unavailable())
    }

    /// The number of tensors in the list.
    ///
    /// This build links no NPU runtime: the call always fails with the
    /// "runtime not linked" error.
    pub fn len(&self) -> (r: Result<u64, Error>)
        ensures
            fails_unavailable(r),
    {
        Err(unavailable())
    }

    /// Whether the list is empty: `len() == 0`, or the error of `len`.
    pub fn is_empty(&self) -> (r: Result<bool, Error>)
        ensures
            fails_unavailable(r),
    {
        match self.len() {
            Ok(n) => Ok(n == 0),
            Err(e) => Err(e),
        }
    }
}

/// A scalar argument of an operator (a copied value with its data type).
///
/// This build links no NPU runtime, so no scalar is ever created.
#[derive(Debug)]
pub struct Scalar {}

impl Scalar {
    /// A scalar holding the 32-bit signed integer `v`.
    ///
    /// This build links no NPU runtime: the call always fails with the
    /// "runtime not linked" error.
    pub fn new_i32(v: i32) -> (r: Result<Scalar, Error>)
        ensures
            fails_unavailable(r),
    {
        Err(unavailable())
    }

    /// A scalar holding the 64-bit signed integer `v`.
    ///
    /// This build links no NPU runtime: the call always fails with the
    /// "runtime not linked" error.
    pub fn new_i64(v: i64) -> (r: Result<Scalar, Error>)
        ensures
            fails_unavailable(r),
    {
        Err(unavailable())
    }
}

} // verus!
