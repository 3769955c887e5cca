//! Runtime error codes (`ACL_ERROR_RT_*`).
//!
//! Code ranges: `107xxx` parameter, handle and context errors; `207xxx`
//! resource and memory errors (out-of-memory among them); `507xxx` driver
//! and execution errors.

use vstd::prelude::*;
use crate::sys::acl_base_rt::aclError;

verus! {

/// param invalid
pub const ACL_ERROR_RT_PARAM_INVALID: aclError = 107000;

/// invalid device id
pub const ACL_ERROR_RT_INVALID_DEVICEID: aclError = 107001;

/// current context null
pub const ACL_ERROR_RT_CONTEXT_NULL: aclError = 107002;

/// stream not in current context
pub const ACL_ERROR_RT_STREAM_CONTEXT: aclError = 107003;

/// model not in current context
pub const ACL_ERROR_RT_MODEL_CONTEXT: aclError = 107004;

/// stream not in model
pub const ACL_ERROR_RT_STREAM_MODEL: aclError = 107005;

/// event timestamp invalid
pub const ACL_ERROR_RT_EVENT_TIMESTAMP_INVALID: aclError = 107006;

/// event timestamp reversal
pub const ACL_ERROR_RT_EVENT_TIMESTAMP_REVERSAL: aclError = 107007;

/// memory address unaligned
pub const ACL_ERROR_RT_ADDR_UNALIGNED: aclError = 107008;

/// open file failed
pub const ACL_ERROR_RT_FILE_OPEN: aclError = 107009;

/// write file failed
pub const ACL_ERROR_RT_FILE_WRITE: aclError = 107010;

/// error subscribe stream
pub const ACL_ERROR_RT_STREAM_SUBSCRIBE: aclError = 107011;

/// error subscribe thread
pub const ACL_ERROR_RT_THREAD_SUBSCRIBE: aclError = 107012;

/// group not set
pub const ACL_ERROR_RT_GROUP_NOT_SET: aclError = 107013;

/// group not create
pub const ACL_ERROR_RT_GROUP_NOT_CREATE: aclError = 107014;

/// callback not register to stream
pub const ACL_ERROR_RT_STREAM_NO_CB_REG: aclError = 107015;

/// invalid memory type
pub const ACL_ERROR_RT_INVALID_MEMORY_TYPE: aclError = 107016;

/// invalid handle
pub const ACL_ERROR_RT_INVALID_HANDLE: aclError = 107017;

/// invalid malloc type
pub const ACL_ERROR_RT_INVALID_MALLOC_TYPE: aclError = 107018;

/// wait timeout
pub const ACL_ERROR_RT_WAIT_TIMEOUT: aclError = 107019;

/// task timeout
pub const ACL_ERROR_RT_TASK_TIMEOUT: aclError = 107020;

/// not set sysparamopt
pub const ACL_ERROR_RT_SYSPARAMOPT_NOT_SET: aclError = 107021;

/// device task aborting
pub const ACL_ERROR_RT_DEVICE_TASK_ABORT: aclError = 107022;

/// stream aborting
pub const ACL_ERROR_RT_STREAM_ABORT: aclError = 107023;

/// capture dependency failure
pub const ACL_ERROR_RT_CAPTURE_DEPENDENCY: aclError = 107024;

/// invalid capture model
pub const ACL_ERROR_RT_STREAM_UNJOINED: aclError = 107025;

/// model is captured
pub const ACL_ERROR_RT_MODEL_CAPTURED: aclError = 107026;

/// stream is captured
pub const ACL_ERROR_RT_STREAM_CAPTURED: aclError = 107027;

/// event is captured
pub const ACL_ERROR_RT_EVENT_CAPTURED: aclError = 107028;

/// stream is not in capture status
pub const ACL_ERROR_RT_STREAM_NOT_CAPTURED: aclError = 107029;

/// stream is captured, not support current oper
pub const ACL_ERROR_RT_CAPTURE_MODE_NOT_SUPPORT: aclError = 107030;

/// a disallowed implicit dependency from defalut stream
pub const ACL_ERROR_RT_STREAM_CAPTURE_IMPLICIT: aclError = 107031;

/// device task aborting stop before post process
pub const ACL_ERROR_RT_TASK_ABORT_STOP: aclError = 107035;

/// the capture was not initiated in this stream
pub const ACL_ERROR_RT_STREAM_CAPTURE_UNMATCHED: aclError = 107036;

/// the model is still running
pub const ACL_ERROR_RT_MODEL_RUNNING: aclError = 107037;

/// the thread of end capture and begin capture is not same
pub const ACL_ERROR_RT_STREAM_CAPTURE_WRONG_THREAD: aclError = 107038;

/// feature not support
pub const ACL_ERROR_RT_FEATURE_NOT_SUPPORT: aclError = 207000;

/// memory allocation error, only used by out of memory
pub const ACL_ERROR_RT_MEMORY_ALLOCATION: aclError = 207001;

/// memory free error
pub const ACL_ERROR_RT_MEMORY_FREE: aclError = 207002;

/// aicore over flow
pub const ACL_ERROR_RT_AICORE_OVER_FLOW: aclError = 207003;

/// no device
pub const ACL_ERROR_RT_NO_DEVICE: aclError = 207004;

/// resource alloc fail
pub const ACL_ERROR_RT_RESOURCE_ALLOC_FAIL: aclError = 207005;

/// no permission
pub const ACL_ERROR_RT_NO_PERMISSION: aclError = 207006;

/// no event resource
pub const ACL_ERROR_RT_NO_EVENT_RESOURCE: aclError = 207007;

/// no stream resource
pub const ACL_ERROR_RT_NO_STREAM_RESOURCE: aclError = 207008;

/// no notify resource
pub const ACL_ERROR_RT_NO_NOTIFY_RESOURCE: aclError = 207009;

/// no model resource
pub const ACL_ERROR_RT_NO_MODEL_RESOURCE: aclError = 207010;

/// no cdq resource
pub const ACL_ERROR_RT_NO_CDQ_RESOURCE: aclError = 207011;

/// over limit
pub const ACL_ERROR_RT_OVER_LIMIT: aclError = 207012;

/// queue is empty
pub const ACL_ERROR_RT_QUEUE_EMPTY: aclError = 207013;

/// queue is full
pub const ACL_ERROR_RT_QUEUE_FULL: aclError = 207014;

/// repeated init
pub const ACL_ERROR_RT_REPEATED_INIT: aclError = 207015;

/// aivec over flow
pub const ACL_ERROR_RT_AIVEC_OVER_FLOW: aclError = 207016;

/// common over flow
pub const ACL_ERROR_RT_OVER_FLOW: aclError = 207017;

/// device oom
pub const ACL_ERROR_RT_DEVICE_OOM: aclError = 207018;

/// not support to update this op
pub const ACL_ERROR_RT_FEATURE_NOT_SUPPORT_UPDATE_OP: aclError = 207019;

/// runtime internal error
pub const ACL_ERROR_RT_INTERNAL_ERROR: aclError = 507000;

/// ts internel error
pub const ACL_ERROR_RT_TS_ERROR: aclError = 507001;

/// task full in stream
pub const ACL_ERROR_RT_STREAM_TASK_FULL: aclError = 507002;

/// task empty in stream
pub const ACL_ERROR_RT_STREAM_TASK_EMPTY: aclError = 507003;

/// stream not complete
pub const ACL_ERROR_RT_STREAM_NOT_COMPLETE: aclError = 507004;

/// end of sequence
pub const ACL_ERROR_RT_END_OF_SEQUENCE: aclError = 507005;

/// event not complete
pub const ACL_ERROR_RT_EVENT_NOT_COMPLETE: aclError = 507006;

/// context release error
pub const ACL_ERROR_RT_CONTEXT_RELEASE_ERROR: aclError = 507007;

/// soc version error
pub const ACL_ERROR_RT_SOC_VERSION: aclError = 507008;

/// task type not support
pub const ACL_ERROR_RT_TASK_TYPE_NOT_SUPPORT: aclError = 507009;

/// ts lost heartbeat
pub const ACL_ERROR_RT_LOST_HEARTBEAT: aclError = 507010;

/// model execute failed
pub const ACL_ERROR_RT_MODEL_EXECUTE: aclError = 507011;

/// report timeout
pub const ACL_ERROR_RT_REPORT_TIMEOUT: aclError = 507012;

/// sys dma error
pub const ACL_ERROR_RT_SYS_DMA: aclError = 507013;

/// aicore timeout
pub const ACL_ERROR_RT_AICORE_TIMEOUT: aclError = 507014;

/// aicore exception
pub const ACL_ERROR_RT_AICORE_EXCEPTION: aclError = 507015;

/// aicore trap exception
pub const ACL_ERROR_RT_AICORE_TRAP_EXCEPTION: aclError = 507016;

/// aicpu timeout
pub const ACL_ERROR_RT_AICPU_TIMEOUT: aclError = 507017;

/// aicpu exception
pub const ACL_ERROR_RT_AICPU_EXCEPTION: aclError = 507018;

/// aicpu datadump response error
pub const ACL_ERROR_RT_AICPU_DATADUMP_RSP_ERR: aclError = 507019;

/// aicpu model operate response error
pub const ACL_ERROR_RT_AICPU_MODEL_RSP_ERR: aclError = 507020;

/// profiling error
pub const ACL_ERROR_RT_PROFILING_ERROR: aclError = 507021;

/// ipc error
pub const ACL_ERROR_RT_IPC_ERROR: aclError = 507022;

/// model abort normal
pub const ACL_ERROR_RT_MODEL_ABORT_NORMAL: aclError = 507023;

/// kernel unregistering
pub const ACL_ERROR_RT_KERNEL_UNREGISTERING: aclError = 507024;

/// ringbuffer not init
pub const ACL_ERROR_RT_RINGBUFFER_NOT_INIT: aclError = 507025;

/// ringbuffer no data
pub const ACL_ERROR_RT_RINGBUFFER_NO_DATA: aclError = 507026;

/// kernel lookup error
pub const ACL_ERROR_RT_KERNEL_LOOKUP: aclError = 507027;

/// kernel register duplicate
pub const ACL_ERROR_RT_KERNEL_DUPLICATE: aclError = 507028;

/// debug register failed
pub const ACL_ERROR_RT_DEBUG_REGISTER_FAIL: aclError = 507029;

/// debug unregister failed
pub const ACL_ERROR_RT_DEBUG_UNREGISTER_FAIL: aclError = 507030;

/// label not in current context
pub const ACL_ERROR_RT_LABEL_CONTEXT: aclError = 507031;

/// program register num use out
pub const ACL_ERROR_RT_PROGRAM_USE_OUT: aclError = 507032;

/// device setup error
pub const ACL_ERROR_RT_DEV_SETUP_ERROR: aclError = 507033;

/// vector core timeout
pub const ACL_ERROR_RT_VECTOR_CORE_TIMEOUT: aclError = 507034;

/// vector core exception
pub const ACL_ERROR_RT_VECTOR_CORE_EXCEPTION: aclError = 507035;

/// vector core trap exception
pub const ACL_ERROR_RT_VECTOR_CORE_TRAP_EXCEPTION: aclError = 507036;

/// cdq alloc batch abnormal
pub const ACL_ERROR_RT_CDQ_BATCH_ABNORMAL: aclError = 507037;

/// can not change die mode
pub const ACL_ERROR_RT_DIE_MODE_CHANGE_ERROR: aclError = 507038;

/// single die mode can not set die
pub const ACL_ERROR_RT_DIE_SET_ERROR: aclError = 507039;

/// invalid die id
pub const ACL_ERROR_RT_INVALID_DIEID: aclError = 507040;

/// die mode not set
pub const ACL_ERROR_RT_DIE_MODE_NOT_SET: aclError = 507041;

/// aic trap read overflow
pub const ACL_ERROR_RT_AICORE_TRAP_READ_OVERFLOW: aclError = 507042;

/// aic trap write overflow
pub const ACL_ERROR_RT_AICORE_TRAP_WRITE_OVERFLOW: aclError = 507043;

/// aiv trap read overflow
pub const ACL_ERROR_RT_VECTOR_CORE_TRAP_READ_OVERFLOW: aclError = 507044;

/// aiv trap write overflow
pub const ACL_ERROR_RT_VECTOR_CORE_TRAP_WRITE_OVERFLOW: aclError = 507045;

/// stream sync time out
pub const ACL_ERROR_RT_STREAM_SYNC_TIMEOUT: aclError = 507046;

/// event sync time out
pub const ACL_ERROR_RT_EVENT_SYNC_TIMEOUT: aclError = 507047;

/// ffts+ timeout
pub const ACL_ERROR_RT_FFTS_PLUS_TIMEOUT: aclError = 507048;

/// ffts+ exception
pub const ACL_ERROR_RT_FFTS_PLUS_EXCEPTION: aclError = 507049;

/// ffts+ trap exception
pub const ACL_ERROR_RT_FFTS_PLUS_TRAP_EXCEPTION: aclError = 507050;

/// hdc send msg fail
pub const ACL_ERROR_RT_SEND_MSG: aclError = 507051;

/// copy data fail
pub const ACL_ERROR_RT_COPY_DATA: aclError = 507052;

/// device MEM ERROR
pub const ACL_ERROR_RT_DEVICE_MEM_ERROR: aclError = 507053;

/// hbm Multi-bit ECC error
pub const ACL_ERROR_RT_HBM_MULTI_BIT_ECC_ERROR: aclError = 507054;

/// suspect device MEM ERROR
pub const ACL_ERROR_RT_SUSPECT_DEVICE_MEM_ERROR: aclError = 507055;

/// link ERROR
pub const ACL_ERROR_RT_LINK_ERROR: aclError = 507056;

/// suspect remote ERROR
pub const ACL_ERROR_RT_SUSPECT_REMOTE_ERROR: aclError = 507057;

/// drv internal error
pub const ACL_ERROR_RT_DRV_INTERNAL_ERROR: aclError = 507899;

/// aicpu internal error
pub const ACL_ERROR_RT_AICPU_INTERNAL_ERROR: aclError = 507900;

/// hdc disconnect
pub const ACL_ERROR_RT_SOCKET_CLOSE: aclError = 507901;

/// aicpu info load response error
pub const ACL_ERROR_RT_AICPU_INFO_LOAD_RSP_ERR: aclError = 507902;

/// capture status is invalidated
pub const ACL_ERROR_RT_STREAM_CAPTURE_INVALIDATED: aclError = 507903;

/// hccl operation retry failed
pub const ACL_ERROR_RT_COMM_OP_RETRY_FAIL: aclError = 507904;

} // verus!
