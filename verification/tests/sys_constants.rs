//! The constants of the C interface keep their published values.

use cann::sys::acl_base_rt::{ACL_ERROR_INVALID_FILE, ACL_SUCCESS};
use cann::sys::aclnn_ops::ACLNN_SUCCESS;
use cann::sys::acl_rt::{ACL_PKG_VERSION_MAX_SIZE, ACL_PKG_VERSION_PARTS_MAX_SIZE};
use cann::sys::acl_datatype::{
    ACL_BF16, ACL_BOOL, ACL_COMPLEX128, ACL_COMPLEX32, ACL_COMPLEX64, ACL_DOUBLE,
    ACL_DT_UNDEFINED, ACL_FLOAT, ACL_FLOAT16, ACL_FLOAT4_E1M2, ACL_FLOAT4_E2M1,
    ACL_FLOAT6_E2M3, ACL_FLOAT6_E3M2, ACL_FLOAT8_E4M3FN, ACL_FLOAT8_E5M2, ACL_FLOAT8_E8M0,
    ACL_FORMAT_FRACTAL_NZ, ACL_FORMAT_FRACTAL_NZ_C0_16, ACL_FORMAT_FRACTAL_NZ_C0_2,
    ACL_FORMAT_FRACTAL_NZ_C0_32, ACL_FORMAT_FRACTAL_NZ_C0_4, ACL_FORMAT_FRACTAL_NZ_C0_8,
    ACL_FORMAT_FRACTAL_Z, ACL_FORMAT_HWCN, ACL_FORMAT_NC, ACL_FORMAT_NC1HWC0,
    ACL_FORMAT_NC1HWC0_C04, ACL_FORMAT_NCDHW, ACL_FORMAT_NCHW, ACL_FORMAT_NCL,
    ACL_FORMAT_ND, ACL_FORMAT_NDC1HWC0, ACL_FORMAT_NDHWC, ACL_FORMAT_NHWC,
    ACL_FORMAT_UNDEFINED, ACL_FRACTAL_Z_3D, ACL_HIFLOAT8, ACL_INT16, ACL_INT32, ACL_INT4,
    ACL_INT64, ACL_INT8, ACL_STRING, ACL_UINT1, ACL_UINT16, ACL_UINT32, ACL_UINT64,
    ACL_UINT8,
};
use cann::sys::acl_error_code::{
    ACL_ERROR_RT_ADDR_UNALIGNED, ACL_ERROR_RT_AICORE_EXCEPTION,
    ACL_ERROR_RT_AICORE_OVER_FLOW, ACL_ERROR_RT_AICORE_TIMEOUT,
    ACL_ERROR_RT_AICORE_TRAP_EXCEPTION, ACL_ERROR_RT_AICORE_TRAP_READ_OVERFLOW,
    ACL_ERROR_RT_AICORE_TRAP_WRITE_OVERFLOW, ACL_ERROR_RT_AICPU_DATADUMP_RSP_ERR,
    ACL_ERROR_RT_AICPU_EXCEPTION, ACL_ERROR_RT_AICPU_INFO_LOAD_RSP_ERR,
    ACL_ERROR_RT_AICPU_INTERNAL_ERROR, ACL_ERROR_RT_AICPU_MODEL_RSP_ERR,
    ACL_ERROR_RT_AICPU_TIMEOUT, ACL_ERROR_RT_AIVEC_OVER_FLOW,
    ACL_ERROR_RT_CAPTURE_DEPENDENCY, ACL_ERROR_RT_CAPTURE_MODE_NOT_SUPPORT,
    ACL_ERROR_RT_CDQ_BATCH_ABNORMAL, ACL_ERROR_RT_COMM_OP_RETRY_FAIL,
    ACL_ERROR_RT_CONTEXT_NULL, ACL_ERROR_RT_CONTEXT_RELEASE_ERROR, ACL_ERROR_RT_COPY_DATA,
    ACL_ERROR_RT_DEBUG_REGISTER_FAIL, ACL_ERROR_RT_DEBUG_UNREGISTER_FAIL,
    ACL_ERROR_RT_DEVICE_MEM_ERROR, ACL_ERROR_RT_DEVICE_OOM, ACL_ERROR_RT_DEVICE_TASK_ABORT,
    ACL_ERROR_RT_DEV_SETUP_ERROR, ACL_ERROR_RT_DIE_MODE_CHANGE_ERROR,
    ACL_ERROR_RT_DIE_MODE_NOT_SET, ACL_ERROR_RT_DIE_SET_ERROR,
    ACL_ERROR_RT_DRV_INTERNAL_ERROR, ACL_ERROR_RT_END_OF_SEQUENCE,
    ACL_ERROR_RT_EVENT_CAPTURED, ACL_ERROR_RT_EVENT_NOT_COMPLETE,
    ACL_ERROR_RT_EVENT_SYNC_TIMEOUT, ACL_ERROR_RT_EVENT_TIMESTAMP_INVALID,
    ACL_ERROR_RT_EVENT_TIMESTAMP_REVERSAL, ACL_ERROR_RT_FEATURE_NOT_SUPPORT,
    ACL_ERROR_RT_FEATURE_NOT_SUPPORT_UPDATE_OP, ACL_ERROR_RT_FFTS_PLUS_EXCEPTION,
    ACL_ERROR_RT_FFTS_PLUS_TIMEOUT, ACL_ERROR_RT_FFTS_PLUS_TRAP_EXCEPTION,
    ACL_ERROR_RT_FILE_OPEN, ACL_ERROR_RT_FILE_WRITE, ACL_ERROR_RT_GROUP_NOT_CREATE,
    ACL_ERROR_RT_GROUP_NOT_SET, ACL_ERROR_RT_HBM_MULTI_BIT_ECC_ERROR,
    ACL_ERROR_RT_INTERNAL_ERROR, ACL_ERROR_RT_INVALID_DEVICEID, ACL_ERROR_RT_INVALID_DIEID,
    ACL_ERROR_RT_INVALID_HANDLE, ACL_ERROR_RT_INVALID_MALLOC_TYPE,
    ACL_ERROR_RT_INVALID_MEMORY_TYPE, ACL_ERROR_RT_IPC_ERROR, ACL_ERROR_RT_KERNEL_DUPLICATE,
    ACL_ERROR_RT_KERNEL_LOOKUP, ACL_ERROR_RT_KERNEL_UNREGISTERING,
    ACL_ERROR_RT_LABEL_CONTEXT, ACL_ERROR_RT_LINK_ERROR, ACL_ERROR_RT_LOST_HEARTBEAT,
    ACL_ERROR_RT_MEMORY_ALLOCATION, ACL_ERROR_RT_MEMORY_FREE,
    ACL_ERROR_RT_MODEL_ABORT_NORMAL, ACL_ERROR_RT_MODEL_CAPTURED,
    ACL_ERROR_RT_MODEL_CONTEXT, ACL_ERROR_RT_MODEL_EXECUTE, ACL_ERROR_RT_MODEL_RUNNING,
    ACL_ERROR_RT_NO_CDQ_RESOURCE, ACL_ERROR_RT_NO_DEVICE, ACL_ERROR_RT_NO_EVENT_RESOURCE,
    ACL_ERROR_RT_NO_MODEL_RESOURCE, ACL_ERROR_RT_NO_NOTIFY_RESOURCE,
    ACL_ERROR_RT_NO_PERMISSION, ACL_ERROR_RT_NO_STREAM_RESOURCE, ACL_ERROR_RT_OVER_FLOW,
    ACL_ERROR_RT_OVER_LIMIT, ACL_ERROR_RT_PARAM_INVALID, ACL_ERROR_RT_PROFILING_ERROR,
    ACL_ERROR_RT_PROGRAM_USE_OUT, ACL_ERROR_RT_QUEUE_EMPTY, ACL_ERROR_RT_QUEUE_FULL,
    ACL_ERROR_RT_REPEATED_INIT, ACL_ERROR_RT_REPORT_TIMEOUT,
    ACL_ERROR_RT_RESOURCE_ALLOC_FAIL, ACL_ERROR_RT_RINGBUFFER_NOT_INIT,
    ACL_ERROR_RT_RINGBUFFER_NO_DATA, ACL_ERROR_RT_SEND_MSG, ACL_ERROR_RT_SOCKET_CLOSE,
    ACL_ERROR_RT_SOC_VERSION, ACL_ERROR_RT_STREAM_ABORT, ACL_ERROR_RT_STREAM_CAPTURED,
    ACL_ERROR_RT_STREAM_CAPTURE_IMPLICIT, ACL_ERROR_RT_STREAM_CAPTURE_INVALIDATED,
    ACL_ERROR_RT_STREAM_CAPTURE_UNMATCHED, ACL_ERROR_RT_STREAM_CAPTURE_WRONG_THREAD,
    ACL_ERROR_RT_STREAM_CONTEXT, ACL_ERROR_RT_STREAM_MODEL,
    ACL_ERROR_RT_STREAM_NOT_CAPTURED, ACL_ERROR_RT_STREAM_NOT_COMPLETE,
    ACL_ERROR_RT_STREAM_NO_CB_REG, ACL_ERROR_RT_STREAM_SUBSCRIBE,
    ACL_ERROR_RT_STREAM_SYNC_TIMEOUT, ACL_ERROR_RT_STREAM_TASK_EMPTY,
    ACL_ERROR_RT_STREAM_TASK_FULL, ACL_ERROR_RT_STREAM_UNJOINED,
    ACL_ERROR_RT_SUSPECT_DEVICE_MEM_ERROR, ACL_ERROR_RT_SUSPECT_REMOTE_ERROR,
    ACL_ERROR_RT_SYSPARAMOPT_NOT_SET, ACL_ERROR_RT_SYS_DMA, ACL_ERROR_RT_TASK_ABORT_STOP,
    ACL_ERROR_RT_TASK_TIMEOUT, ACL_ERROR_RT_TASK_TYPE_NOT_SUPPORT,
    ACL_ERROR_RT_THREAD_SUBSCRIBE, ACL_ERROR_RT_TS_ERROR,
    ACL_ERROR_RT_VECTOR_CORE_EXCEPTION, ACL_ERROR_RT_VECTOR_CORE_TIMEOUT,
    ACL_ERROR_RT_VECTOR_CORE_TRAP_EXCEPTION, ACL_ERROR_RT_VECTOR_CORE_TRAP_READ_OVERFLOW,
    ACL_ERROR_RT_VECTOR_CORE_TRAP_WRITE_OVERFLOW, ACL_ERROR_RT_WAIT_TIMEOUT,
};
use cann::sys::acl_grph::{
    GRAPH_ADD_OVERFLOW, GRAPH_FAILED, GRAPH_INVALID_IR_DEF, GRAPH_MATH_CAL_FAILED,
    GRAPH_MEMCPY_FAILED, GRAPH_MEMSET_FAILED, GRAPH_MEM_OPERATE_FAILED, GRAPH_MUL_OVERFLOW,
    GRAPH_NODE_NEED_REPASS, GRAPH_NODE_WITHOUT_CONST_INPUT, GRAPH_NOT_CHANGED,
    GRAPH_NULL_PTR, GRAPH_PARAM_INVALID, GRAPH_PARAM_OUT_OF_RANGE, GRAPH_RoundUp_Overflow,
    GRAPH_SUCCESS, OP_WITHOUT_IR_DATATYPE_INFER_RULE,
};
use cann::sys::acl_memory::{
    ACL_MEMCPY_DEFAULT, ACL_MEMCPY_DEVICE_TO_DEVICE, ACL_MEMCPY_DEVICE_TO_HOST,
    ACL_MEMCPY_HOST_TO_BUF_TO_DEVICE, ACL_MEMCPY_HOST_TO_DEVICE, ACL_MEMCPY_HOST_TO_HOST,
    ACL_MEMCPY_INNER_DEVICE_TO_DEVICE, ACL_MEMCPY_INTER_DEVICE_TO_DEVICE,
    ACL_MEM_ACCESS_USER_SPACE_READONLY, ACL_MEM_MALLOC_HUGE1G_ONLY,
    ACL_MEM_MALLOC_HUGE1G_ONLY_P2P, ACL_MEM_MALLOC_HUGE_FIRST,
    ACL_MEM_MALLOC_HUGE_FIRST_P2P, ACL_MEM_MALLOC_HUGE_ONLY, ACL_MEM_MALLOC_HUGE_ONLY_P2P,
    ACL_MEM_MALLOC_NORMAL_ONLY, ACL_MEM_MALLOC_NORMAL_ONLY_P2P,
    ACL_MEM_TYPE_HIGH_BAND_WIDTH, ACL_MEM_TYPE_LOW_BAND_WIDTH,
};

#[test]
fn test_acl_success() {
    assert_eq!(ACL_SUCCESS, 0);
}

#[test]
fn test_acl_error_invalid_file() {
    assert_eq!(ACL_ERROR_INVALID_FILE, 100_003);
}

#[test]
fn test_aclnn_success() {
    assert_eq!(ACLNN_SUCCESS, 0);
}

#[test]
fn test_version_max_size() {
    assert_eq!(ACL_PKG_VERSION_MAX_SIZE, 128);
}

#[test]
fn test_version_parts_max_size() {
    assert_eq!(ACL_PKG_VERSION_PARTS_MAX_SIZE, 64);
}

#[test]
fn test_acl_data_type_values_match_header() {
        assert_eq!(ACL_DT_UNDEFINED, -1);
        assert_eq!(ACL_FLOAT, 0);
        assert_eq!(ACL_FLOAT16, 1);
        assert_eq!(ACL_INT8, 2);
        assert_eq!(ACL_INT32, 3);
        assert_eq!(ACL_UINT8, 4);
        assert_eq!(ACL_INT16, 6);
        assert_eq!(ACL_UINT16, 7);
        assert_eq!(ACL_UINT32, 8);
        assert_eq!(ACL_INT64, 9);
        assert_eq!(ACL_UINT64, 10);
        assert_eq!(ACL_DOUBLE, 11);
        assert_eq!(ACL_BOOL, 12);
        assert_eq!(ACL_STRING, 13);
        assert_eq!(ACL_COMPLEX64, 16);
        assert_eq!(ACL_COMPLEX128, 17);
        assert_eq!(ACL_BF16, 27);
        assert_eq!(ACL_INT4, 29);
        assert_eq!(ACL_UINT1, 30);
        assert_eq!(ACL_COMPLEX32, 33);
        assert_eq!(ACL_HIFLOAT8, 34);
        assert_eq!(ACL_FLOAT8_E5M2, 35);
        assert_eq!(ACL_FLOAT8_E4M3FN, 36);
        assert_eq!(ACL_FLOAT8_E8M0, 37);
        assert_eq!(ACL_FLOAT6_E3M2, 38);
        assert_eq!(ACL_FLOAT6_E2M3, 39);
        assert_eq!(ACL_FLOAT4_E2M1, 40);
        assert_eq!(ACL_FLOAT4_E1M2, 41);
    }

#[test]
fn test_acl_format_values_match_header() {
        assert_eq!(ACL_FORMAT_UNDEFINED, -1);
        assert_eq!(ACL_FORMAT_NCHW, 0);
        assert_eq!(ACL_FORMAT_NHWC, 1);
        assert_eq!(ACL_FORMAT_ND, 2);
        assert_eq!(ACL_FORMAT_NC1HWC0, 3);
        assert_eq!(ACL_FORMAT_FRACTAL_Z, 4);
        assert_eq!(ACL_FORMAT_NC1HWC0_C04, 12);
        assert_eq!(ACL_FORMAT_HWCN, 16);
        assert_eq!(ACL_FORMAT_NDHWC, 27);
        assert_eq!(ACL_FORMAT_FRACTAL_NZ, 29);
        assert_eq!(ACL_FORMAT_NCDHW, 30);
        assert_eq!(ACL_FORMAT_NDC1HWC0, 32);
        assert_eq!(ACL_FRACTAL_Z_3D, 33);
        assert_eq!(ACL_FORMAT_NC, 35);
        assert_eq!(ACL_FORMAT_NCL, 47);
        assert_eq!(ACL_FORMAT_FRACTAL_NZ_C0_16, 50);
        assert_eq!(ACL_FORMAT_FRACTAL_NZ_C0_32, 51);
        assert_eq!(ACL_FORMAT_FRACTAL_NZ_C0_2, 52);
        assert_eq!(ACL_FORMAT_FRACTAL_NZ_C0_4, 53);
        assert_eq!(ACL_FORMAT_FRACTAL_NZ_C0_8, 54);
    }

#[test]
fn test_rt_error_constants_match_header() {
        assert_eq!(ACL_ERROR_RT_PARAM_INVALID, 107000);
        assert_eq!(ACL_ERROR_RT_INVALID_DEVICEID, 107001);
        assert_eq!(ACL_ERROR_RT_CONTEXT_NULL, 107002);
        assert_eq!(ACL_ERROR_RT_STREAM_CONTEXT, 107003);
        assert_eq!(ACL_ERROR_RT_MODEL_CONTEXT, 107004);
        assert_eq!(ACL_ERROR_RT_STREAM_MODEL, 107005);
        assert_eq!(ACL_ERROR_RT_EVENT_TIMESTAMP_INVALID, 107006);
        assert_eq!(ACL_ERROR_RT_EVENT_TIMESTAMP_REVERSAL, 107007);
        assert_eq!(ACL_ERROR_RT_ADDR_UNALIGNED, 107008);
        assert_eq!(ACL_ERROR_RT_FILE_OPEN, 107009);
        assert_eq!(ACL_ERROR_RT_FILE_WRITE, 107010);
        assert_eq!(ACL_ERROR_RT_STREAM_SUBSCRIBE, 107011);
        assert_eq!(ACL_ERROR_RT_THREAD_SUBSCRIBE, 107012);
        assert_eq!(ACL_ERROR_RT_GROUP_NOT_SET, 107013);
        assert_eq!(ACL_ERROR_RT_GROUP_NOT_CREATE, 107014);
        assert_eq!(ACL_ERROR_RT_STREAM_NO_CB_REG, 107015);
        assert_eq!(ACL_ERROR_RT_INVALID_MEMORY_TYPE, 107016);
        assert_eq!(ACL_ERROR_RT_INVALID_HANDLE, 107017);
        assert_eq!(ACL_ERROR_RT_INVALID_MALLOC_TYPE, 107018);
        assert_eq!(ACL_ERROR_RT_WAIT_TIMEOUT, 107019);
        assert_eq!(ACL_ERROR_RT_TASK_TIMEOUT, 107020);
        assert_eq!(ACL_ERROR_RT_SYSPARAMOPT_NOT_SET, 107021);
        assert_eq!(ACL_ERROR_RT_DEVICE_TASK_ABORT, 107022);
        assert_eq!(ACL_ERROR_RT_STREAM_ABORT, 107023);
        assert_eq!(ACL_ERROR_RT_CAPTURE_DEPENDENCY, 107024);
        assert_eq!(ACL_ERROR_RT_STREAM_UNJOINED, 107025);
        assert_eq!(ACL_ERROR_RT_MODEL_CAPTURED, 107026);
        assert_eq!(ACL_ERROR_RT_STREAM_CAPTURED, 107027);
        assert_eq!(ACL_ERROR_RT_EVENT_CAPTURED, 107028);
        assert_eq!(ACL_ERROR_RT_STREAM_NOT_CAPTURED, 107029);
        assert_eq!(ACL_ERROR_RT_CAPTURE_MODE_NOT_SUPPORT, 107030);
        assert_eq!(ACL_ERROR_RT_STREAM_CAPTURE_IMPLICIT, 107031);
        assert_eq!(ACL_ERROR_RT_TASK_ABORT_STOP, 107035);
        assert_eq!(ACL_ERROR_RT_STREAM_CAPTURE_UNMATCHED, 107036);
        assert_eq!(ACL_ERROR_RT_MODEL_RUNNING, 107037);
        assert_eq!(ACL_ERROR_RT_STREAM_CAPTURE_WRONG_THREAD, 107038);
        assert_eq!(ACL_ERROR_RT_FEATURE_NOT_SUPPORT, 207000);
        assert_eq!(ACL_ERROR_RT_MEMORY_ALLOCATION, 207001);
        assert_eq!(ACL_ERROR_RT_MEMORY_FREE, 207002);
        assert_eq!(ACL_ERROR_RT_AICORE_OVER_FLOW, 207003);
        assert_eq!(ACL_ERROR_RT_NO_DEVICE, 207004);
        assert_eq!(ACL_ERROR_RT_RESOURCE_ALLOC_FAIL, 207005);
        assert_eq!(ACL_ERROR_RT_NO_PERMISSION, 207006);
        assert_eq!(ACL_ERROR_RT_NO_EVENT_RESOURCE, 207007);
        assert_eq!(ACL_ERROR_RT_NO_STREAM_RESOURCE, 207008);
        assert_eq!(ACL_ERROR_RT_NO_NOTIFY_RESOURCE, 207009);
        assert_eq!(ACL_ERROR_RT_NO_MODEL_RESOURCE, 207010);
        assert_eq!(ACL_ERROR_RT_NO_CDQ_RESOURCE, 207011);
        assert_eq!(ACL_ERROR_RT_OVER_LIMIT, 207012);
        assert_eq!(ACL_ERROR_RT_QUEUE_EMPTY, 207013);
        assert_eq!(ACL_ERROR_RT_QUEUE_FULL, 207014);
        assert_eq!(ACL_ERROR_RT_REPEATED_INIT, 207015);
        assert_eq!(ACL_ERROR_RT_AIVEC_OVER_FLOW, 207016);
        assert_eq!(ACL_ERROR_RT_OVER_FLOW, 207017);
        assert_eq!(ACL_ERROR_RT_DEVICE_OOM, 207018);
        assert_eq!(ACL_ERROR_RT_FEATURE_NOT_SUPPORT_UPDATE_OP, 207019);
        assert_eq!(ACL_ERROR_RT_INTERNAL_ERROR, 507000);
        assert_eq!(ACL_ERROR_RT_TS_ERROR, 507001);
        assert_eq!(ACL_ERROR_RT_STREAM_TASK_FULL, 507002);
        assert_eq!(ACL_ERROR_RT_STREAM_TASK_EMPTY, 507003);
        assert_eq!(ACL_ERROR_RT_STREAM_NOT_COMPLETE, 507004);
        assert_eq!(ACL_ERROR_RT_END_OF_SEQUENCE, 507005);
        assert_eq!(ACL_ERROR_RT_EVENT_NOT_COMPLETE, 507006);
        assert_eq!(ACL_ERROR_RT_CONTEXT_RELEASE_ERROR, 507007);
        assert_eq!(ACL_ERROR_RT_SOC_VERSION, 507008);
        assert_eq!(ACL_ERROR_RT_TASK_TYPE_NOT_SUPPORT, 507009);
        assert_eq!(ACL_ERROR_RT_LOST_HEARTBEAT, 507010);
        assert_eq!(ACL_ERROR_RT_MODEL_EXECUTE, 507011);
        assert_eq!(ACL_ERROR_RT_REPORT_TIMEOUT, 507012);
        assert_eq!(ACL_ERROR_RT_SYS_DMA, 507013);
        assert_eq!(ACL_ERROR_RT_AICORE_TIMEOUT, 507014);
        assert_eq!(ACL_ERROR_RT_AICORE_EXCEPTION, 507015);
        assert_eq!(ACL_ERROR_RT_AICORE_TRAP_EXCEPTION, 507016);
        assert_eq!(ACL_ERROR_RT_AICPU_TIMEOUT, 507017);
        assert_eq!(ACL_ERROR_RT_AICPU_EXCEPTION, 507018);
        assert_eq!(ACL_ERROR_RT_AICPU_DATADUMP_RSP_ERR, 507019);
        assert_eq!(ACL_ERROR_RT_AICPU_MODEL_RSP_ERR, 507020);
        assert_eq!(ACL_ERROR_RT_PROFILING_ERROR, 507021);
        assert_eq!(ACL_ERROR_RT_IPC_ERROR, 507022);
        assert_eq!(ACL_ERROR_RT_MODEL_ABORT_NORMAL, 507023);
        assert_eq!(ACL_ERROR_RT_KERNEL_UNREGISTERING, 507024);
        assert_eq!(ACL_ERROR_RT_RINGBUFFER_NOT_INIT, 507025);
        assert_eq!(ACL_ERROR_RT_RINGBUFFER_NO_DATA, 507026);
        assert_eq!(ACL_ERROR_RT_KERNEL_LOOKUP, 507027);
        assert_eq!(ACL_ERROR_RT_KERNEL_DUPLICATE, 507028);
        assert_eq!(ACL_ERROR_RT_DEBUG_REGISTER_FAIL, 507029);
        assert_eq!(ACL_ERROR_RT_DEBUG_UNREGISTER_FAIL, 507030);
        assert_eq!(ACL_ERROR_RT_LABEL_CONTEXT, 507031);
        assert_eq!(ACL_ERROR_RT_PROGRAM_USE_OUT, 507032);
        assert_eq!(ACL_ERROR_RT_DEV_SETUP_ERROR, 507033);
        assert_eq!(ACL_ERROR_RT_VECTOR_CORE_TIMEOUT, 507034);
        assert_eq!(ACL_ERROR_RT_VECTOR_CORE_EXCEPTION, 507035);
        assert_eq!(ACL_ERROR_RT_VECTOR_CORE_TRAP_EXCEPTION, 507036);
        assert_eq!(ACL_ERROR_RT_CDQ_BATCH_ABNORMAL, 507037);
        assert_eq!(ACL_ERROR_RT_DIE_MODE_CHANGE_ERROR, 507038);
        assert_eq!(ACL_ERROR_RT_DIE_SET_ERROR, 507039);
        assert_eq!(ACL_ERROR_RT_INVALID_DIEID, 507040);
        assert_eq!(ACL_ERROR_RT_DIE_MODE_NOT_SET, 507041);
        assert_eq!(ACL_ERROR_RT_AICORE_TRAP_READ_OVERFLOW, 507042);
        assert_eq!(ACL_ERROR_RT_AICORE_TRAP_WRITE_OVERFLOW, 507043);
        assert_eq!(ACL_ERROR_RT_VECTOR_CORE_TRAP_READ_OVERFLOW, 507044);
        assert_eq!(ACL_ERROR_RT_VECTOR_CORE_TRAP_WRITE_OVERFLOW, 507045);
        assert_eq!(ACL_ERROR_RT_STREAM_SYNC_TIMEOUT, 507046);
        assert_eq!(ACL_ERROR_RT_EVENT_SYNC_TIMEOUT, 507047);
        assert_eq!(ACL_ERROR_RT_FFTS_PLUS_TIMEOUT, 507048);
        assert_eq!(ACL_ERROR_RT_FFTS_PLUS_EXCEPTION, 507049);
        assert_eq!(ACL_ERROR_RT_FFTS_PLUS_TRAP_EXCEPTION, 507050);
        assert_eq!(ACL_ERROR_RT_SEND_MSG, 507051);
        assert_eq!(ACL_ERROR_RT_COPY_DATA, 507052);
        assert_eq!(ACL_ERROR_RT_DEVICE_MEM_ERROR, 507053);
        assert_eq!(ACL_ERROR_RT_HBM_MULTI_BIT_ECC_ERROR, 507054);
        assert_eq!(ACL_ERROR_RT_SUSPECT_DEVICE_MEM_ERROR, 507055);
        assert_eq!(ACL_ERROR_RT_LINK_ERROR, 507056);
        assert_eq!(ACL_ERROR_RT_SUSPECT_REMOTE_ERROR, 507057);
        assert_eq!(ACL_ERROR_RT_DRV_INTERNAL_ERROR, 507899);
        assert_eq!(ACL_ERROR_RT_AICPU_INTERNAL_ERROR, 507900);
        assert_eq!(ACL_ERROR_RT_SOCKET_CLOSE, 507901);
        assert_eq!(ACL_ERROR_RT_AICPU_INFO_LOAD_RSP_ERR, 507902);
        assert_eq!(ACL_ERROR_RT_STREAM_CAPTURE_INVALIDATED, 507903);
        assert_eq!(ACL_ERROR_RT_COMM_OP_RETRY_FAIL, 507904);
    }

#[test]
fn test_status_constants() {
        assert_eq!(GRAPH_SUCCESS, 0);
        assert_eq!(GRAPH_FAILED, 0xFFFF_FFFF);
        assert_eq!(GRAPH_NOT_CHANGED, 1343242304);
        assert_eq!(GRAPH_PARAM_INVALID, 50331649);
        assert_eq!(GRAPH_NODE_WITHOUT_CONST_INPUT, 50331648);
        assert_eq!(GRAPH_NODE_NEED_REPASS, 50331647);
        assert_eq!(GRAPH_INVALID_IR_DEF, 50331646);
        assert_eq!(OP_WITHOUT_IR_DATATYPE_INFER_RULE, 50331645);
        assert_eq!(GRAPH_PARAM_OUT_OF_RANGE, 50331644);
        assert_eq!(GRAPH_MEM_OPERATE_FAILED, 50331539);
        assert_eq!(GRAPH_NULL_PTR, 50331538);
        assert_eq!(GRAPH_MEMCPY_FAILED, 50331537);
        assert_eq!(GRAPH_MEMSET_FAILED, 50331536);
        assert_eq!(GRAPH_MATH_CAL_FAILED, 50331429);
        assert_eq!(GRAPH_ADD_OVERFLOW, 50331428);
        assert_eq!(GRAPH_MUL_OVERFLOW, 50331427);
        assert_eq!(GRAPH_RoundUp_Overflow, 50331426);
    }

#[test]
fn test_success_is_zero() {
        assert_eq!(GRAPH_SUCCESS, 0);
        assert_ne!(GRAPH_FAILED, GRAPH_SUCCESS);
    }

#[test]
fn test_mem_malloc_policy_constants() {
        assert_eq!(ACL_MEM_MALLOC_HUGE_FIRST, 0);
        assert_eq!(ACL_MEM_MALLOC_HUGE_ONLY, 1);
        assert_eq!(ACL_MEM_MALLOC_NORMAL_ONLY, 2);
        assert_eq!(ACL_MEM_MALLOC_HUGE_FIRST_P2P, 3);
        assert_eq!(ACL_MEM_MALLOC_HUGE_ONLY_P2P, 4);
        assert_eq!(ACL_MEM_MALLOC_NORMAL_ONLY_P2P, 5);
        assert_eq!(ACL_MEM_MALLOC_HUGE1G_ONLY, 6);
        assert_eq!(ACL_MEM_MALLOC_HUGE1G_ONLY_P2P, 7);
        assert_eq!(ACL_MEM_TYPE_LOW_BAND_WIDTH, 0x0100);
        assert_eq!(ACL_MEM_TYPE_HIGH_BAND_WIDTH, 0x1000);
        assert_eq!(ACL_MEM_ACCESS_USER_SPACE_READONLY, 0x100000);
    }

#[test]
fn test_memcpy_kind_constants() {
        assert_eq!(ACL_MEMCPY_HOST_TO_HOST, 0);
        assert_eq!(ACL_MEMCPY_HOST_TO_DEVICE, 1);
        assert_eq!(ACL_MEMCPY_DEVICE_TO_HOST, 2);
        assert_eq!(ACL_MEMCPY_DEVICE_TO_DEVICE, 3);
        assert_eq!(ACL_MEMCPY_DEFAULT, 4);
        assert_eq!(ACL_MEMCPY_HOST_TO_BUF_TO_DEVICE, 5);
        assert_eq!(ACL_MEMCPY_INNER_DEVICE_TO_DEVICE, 6);
        assert_eq!(ACL_MEMCPY_INTER_DEVICE_TO_DEVICE, 7);
    }
