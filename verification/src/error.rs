//! The library's error value: a runtime status code with a readable
//! message, and its classification into out-of-memory and recoverable
//! codes.
//!
//! Both classifications are closed lists: a code is out-of-memory or
//! recoverable only when it is listed; every other code, including codes a
//! later runtime may add, is neither (the caller treats it as fatal).

use crate::sys::acl_base_rt::{
    aclError, ACL_SUCCESS, ACL_ERROR_FILE_ATTR_INVALID, ACL_ERROR_FILE_MISSING_ATTR, ACL_ERROR_INVALID_FILE,
    ACL_ERROR_INVALID_FILE_SIZE, ACL_ERROR_INVALID_PARAM, ACL_ERROR_PARSE_FILE,
    ACL_ERROR_REPEAT_INITIALIZE, ACL_ERROR_UNINITIALIZE, ACL_ERROR_WRITE_FILE,
};
use crate::sys::acl_error_code::{
    ACL_ERROR_RT_AICPU_INTERNAL_ERROR, ACL_ERROR_RT_CONTEXT_RELEASE_ERROR,
    ACL_ERROR_RT_DEVICE_OOM, ACL_ERROR_RT_DEV_SETUP_ERROR, ACL_ERROR_RT_DRV_INTERNAL_ERROR,
    ACL_ERROR_RT_INTERNAL_ERROR, ACL_ERROR_RT_MEMORY_ALLOCATION, ACL_ERROR_RT_MEMORY_FREE,
};
use crate::sys::acl_grph::{graphStatus, GRAPH_SUCCESS};
use crate::sys::aclnn_ops::{aclnnStatus, ACLNN_SUCCESS};
use crate::text::{int_decimal, int_to_string};
use vstd::prelude::*;

verus! {

/// A failed runtime operation.
#[derive(Debug)]
pub struct Error {
    /// The runtime's status code (`-1` for errors raised by this library).
    pub code: aclError,
    /// A readable description.
    pub message: String,
}

/// The message that [`Error::from`] attaches to `code`.
pub open spec fn code_message(code: aclError) -> Seq<char> {
    if code == ACL_ERROR_INVALID_PARAM {
        "参数无效"@
    } else if code == ACL_ERROR_UNINITIALIZE {
        "模块未初始化"@
    } else if code == ACL_ERROR_REPEAT_INITIALIZE {
        "重复初始化"@
    } else if code == ACL_ERROR_INVALID_FILE {
        "文件无效（可能缺少 NPU 驱动）"@
    } else if code == ACL_ERROR_WRITE_FILE {
        "文件写入失败"@
    } else if code == ACL_ERROR_INVALID_FILE_SIZE {
        "文件大小无效"@
    } else if code == ACL_ERROR_PARSE_FILE {
        "文件解析失败"@
    } else if code == ACL_ERROR_FILE_MISSING_ATTR {
        "文件缺少属性"@
    } else if code == ACL_ERROR_FILE_ATTR_INVALID {
        "文件属性无效"@
    } else {
        "未知 CANN 错误码: "@ + int_decimal(code as int)
    }
}

/// The codes classified as out-of-memory.
pub open spec fn is_oom_code(code: aclError) -> bool {
    code == ACL_ERROR_RT_MEMORY_ALLOCATION || code == ACL_ERROR_RT_MEMORY_FREE || code
        == ACL_ERROR_RT_DEVICE_OOM
}

/// The codes classified as recoverable by rebuilding the driver or
/// context. `ACL_ERROR_RT_NO_DEVICE` is deliberately absent: a missing
/// device is a resource error that a rebuilt context does not cure.
pub open spec fn is_recoverable_code(code: aclError) -> bool {
    code == ACL_ERROR_RT_INTERNAL_ERROR || code == ACL_ERROR_RT_DEV_SETUP_ERROR || code
        == ACL_ERROR_RT_DRV_INTERNAL_ERROR || code == ACL_ERROR_RT_AICPU_INTERNAL_ERROR || code
        == ACL_ERROR_RT_CONTEXT_RELEASE_ERROR
}

/// The text `{}` formatting gives an error: `CANN 错误 (<code>): <message>`.
pub open spec fn display_text(code: aclError, message: Seq<char>) -> Seq<char> {
    "CANN 错误 ("@ + int_decimal(code as int) + "): "@ + message
}

/// The message of the error that every runtime entry point reports in this
/// build, which links no NPU runtime.
pub open spec fn unavailable_message() -> Seq<char> {
    "cann ffi 特性未启用，请以 --features ffi 构建"@
}

/// Whether `e` is the "runtime not linked" error: code `-1` and
/// [`unavailable_message`].
pub open spec fn is_unavailable(e: Error) -> bool {
    e.code == -1 && e.message@ == unavailable_message()
}

/// Whether `r` failed with the "runtime not linked" error.
pub open spec fn fails_unavailable<T>(r: Result<T, Error>) -> bool {
    match r {
        Ok(_) => false,
        Err(e) => is_unavailable(e),
    }
}

/// The error for a failed operator library call: the status as code, and
/// `aclnn 调用失败: <status>` as message.
pub open spec fn is_aclnn_error(e: Error, ret: aclnnStatus) -> bool {
    e.code == ret && e.message@ == "aclnn 调用失败: "@ + int_decimal(ret as int)
}

/// The error for a failed graph engine call: the status reinterpreted as a
/// signed code, and `graph 调用失败: <status>` as message.
pub open spec fn is_graph_error(e: Error, ret: graphStatus) -> bool {
    e.code == ret as i32 && e.message@ == "graph 调用失败: "@ + int_decimal(ret as int)
}

/// A string holding `prefix` followed by the decimal text of `v`.
pub(crate) fn prefixed_number(prefix: &str, v: i64) -> (r: String)
    ensures
        r@ == prefix@ + int_decimal(v as int),
{
    let mut s = String::from_str(prefix);
    let num = int_to_string(v);
    s.append(num.as_str());
    s
}

impl Error {
    /// The error for runtime status `code`, with the readable message of the
    /// general codes and `未知 CANN 错误码: <code>` for any other code.
    pub fn from(code: aclError) -> (r: Error)
        ensures
            r.code == code,
            r.message@ == code_message(code),
    {
        let message = if code == ACL_ERROR_INVALID_PARAM {
            String::from_str("参数无效")
        } else if code == ACL_ERROR_UNINITIALIZE {
            String::from_str("模块未初始化")
        } else if code == ACL_ERROR_REPEAT_INITIALIZE {
            String::from_str("重复初始化")
        } else if code == ACL_ERROR_INVALID_FILE {
            String::from_str("文件无效（可能缺少 NPU 驱动）")
        } else if code == ACL_ERROR_WRITE_FILE {
            String::from_str("文件写入失败")
        } else if code == ACL_ERROR_INVALID_FILE_SIZE {
            String::from_str("文件大小无效")
        } else if code == ACL_ERROR_PARSE_FILE {
            String::from_str("文件解析失败")
        } else if code == ACL_ERROR_FILE_MISSING_ATTR {
            String::from_str("文件缺少属性")
        } else if code == ACL_ERROR_FILE_ATTR_INVALID {
            String::from_str("文件属性无效")
        } else {
            prefixed_number("未知 CANN 错误码: ", code as i64)
        };
        Error { code, message }
    }

    /// Whether this is an out-of-memory error (a closed list of codes; any
    /// other code answers `false`).
    pub fn is_oom(&self) -> (r: bool)
        ensures
            r == is_oom_code(self.code),
            r <==> (self.code == 207001 || self.code == 207002 || self.code == 207018),
    {
        self.code == ACL_ERROR_RT_MEMORY_ALLOCATION || self.code == ACL_ERROR_RT_MEMORY_FREE
            || self.code == ACL_ERROR_RT_DEVICE_OOM
    }

    /// Whether this error may be cured by rebuilding the driver or context
    /// (a closed list of driver and execution codes; any other code answers
    /// `false`).
    pub fn is_recoverable(&self) -> (r: bool)
        ensures
            r == is_recoverable_code(self.code),
            r <==> (self.code == 507000 || self.code == 507007 || self.code == 507033 || self.code
                == 507899 || self.code == 507900),
    {
        self.code == ACL_ERROR_RT_INTERNAL_ERROR || self.code == ACL_ERROR_RT_DEV_SETUP_ERROR
            || self.code == ACL_ERROR_RT_DRV_INTERNAL_ERROR || self.code
            == ACL_ERROR_RT_AICPU_INTERNAL_ERROR || self.code == ACL_ERROR_RT_CONTEXT_RELEASE_ERROR
    }

    /// The error's display text: `CANN 错误 (<code>): <message>`.
    pub fn to_string(&self) -> (r: String)
        ensures
            r@ == display_text(self.code, self.message@),
    {
        let mut s = prefixed_number("CANN 错误 (", self.code as i64);
        s.append("): ");
        s.append(self.message.as_str());
        s
    }
}

/// The error that every runtime entry point reports in this build, which
/// links no NPU runtime: code `-1` (not a runtime code) and
/// [`unavailable_message`].
pub fn unavailable() -> (r: Error)
    ensures
        is_unavailable(r),
{
    Error { code: -1, message: String::from_str("cann ffi 特性未启用，请以 --features ffi 构建") }
}

/// The error for a failed operator library call with status `ret`.
pub fn aclnn_error(ret: aclnnStatus) -> (r: Error)
    ensures
        is_aclnn_error(r, ret),
{
    Error { code: ret, message: prefixed_number("aclnn 调用失败: ", ret as i64) }
}

/// The error for a failed graph engine call with status `ret`.
pub fn graph_error(ret: graphStatus) -> (r: Error)
    ensures
        is_graph_error(r, ret),
{
    Error { code: ret as i32, message: prefixed_number("graph 调用失败: ", ret as i64) }
}

/// Turns a runtime status into a result: `Ok` for `ACL_SUCCESS`, else the
/// error of [`Error::from`] for that status.
pub fn check_status(ret: aclError) -> (r: Result<(), Error>)
    ensures
        ret == ACL_SUCCESS <==> r is Ok,
        r matches Err(e) ==> e.code == ret && e.message@ == code_message(ret),
{
    if ret == ACL_SUCCESS {
        Ok(())
    } else {
        Err(Error::from(ret))
    }
}

/// Turns an operator library status into a result: `Ok` for
/// `ACLNN_SUCCESS`, else the error of [`aclnn_error`].
pub fn check_aclnn_status(ret: aclnnStatus) -> (r: Result<(), Error>)
    ensures
        ret == ACLNN_SUCCESS <==> r is Ok,
        r matches Err(e) ==> is_aclnn_error(e, ret),
{
    if ret == ACLNN_SUCCESS {
        Ok(())
    } else {
        Err(aclnn_error(ret))
    }
}

/// Turns a graph engine status into a result: `Ok` for `GRAPH_SUCCESS`,
/// else the error of [`graph_error`].
pub fn check_graph_status(ret: graphStatus) -> (r: Result<(), Error>)
    ensures
        ret == GRAPH_SUCCESS <==> r is Ok,
        r matches Err(e) ==> is_graph_error(e, ret),
{
    if ret == GRAPH_SUCCESS {
        Ok(())
    } else {
        Err(graph_error(ret))
    }
}

/// No code is both out-of-memory and recoverable: the two lists are
/// disjoint, so the classification of any error is unambiguous.
pub proof fn lemma_oom_and_recoverable_disjoint(code: aclError)
    ensures
        !(is_oom_code(code) && is_recoverable_code(code)),
{
}

/// Both classifications are closed: a code outside the `207xxx` resource
/// range is never out-of-memory, and a code outside the `507xxx` driver
/// range is never recoverable.
pub proof fn lemma_classification_ranges(code: aclError)
    ensures
        is_oom_code(code) ==> 207000 <= code < 208000,
        is_recoverable_code(code) ==> 507000 <= code < 508000,
{
}

/// Exactly three codes are out-of-memory: memory allocation failure
/// (207001), memory free failure (207002) and device out-of-memory
/// (207018). Every other code, neighbouring resource codes such as
/// 207003 to 207017 included, is not.
pub proof fn lemma_oom_codes_are_exactly(code: aclError)
    ensures
        is_oom_code(code) <==> (code == 207001 || code == 207002 || code == 207018),
        is_oom_code(207001) && is_oom_code(207002) && is_oom_code(207018),
        forall|c: aclError| 207003 <= c <= 207017 ==> !is_oom_code(c),
{
}

/// Exactly five codes are recoverable: runtime internal error (507000),
/// context release error (507007), device setup error (507033), driver
/// internal error (507899) and AI CPU internal error (507900). Every other
/// code is not; in particular no timeout, exception or heartbeat code of
/// the `507xxx` range, and no resource code such as a missing device.
pub proof fn lemma_recoverable_codes_are_exactly(code: aclError)
    ensures
        is_recoverable_code(code) <==> (code == 507000 || code == 507007 || code == 507033
            || code == 507899 || code == 507900),
        forall|c: aclError| 507008 <= c <= 507032 ==> !is_recoverable_code(c),
        forall|c: aclError| 507034 <= c <= 507898 ==> !is_recoverable_code(c),
        forall|c: aclError| 207000 <= c < 208000 ==> !is_recoverable_code(c),
{
}

} // verus!
