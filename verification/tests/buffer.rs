//! Memory buffers, allocation policies and copy directions.

use cann::buffer::{memcpy, memcpy_async, DeviceBuffer, HostBuffer, MemFlags, MemcpyKind};
use cann::stream::Stream;
use cann::sys::acl_memory::{
    ACL_MEMCPY_DEVICE_TO_DEVICE, ACL_MEMCPY_DEVICE_TO_HOST, ACL_MEMCPY_HOST_TO_DEVICE,
    ACL_MEM_MALLOC_HUGE1G_ONLY, ACL_MEM_MALLOC_HUGE1G_ONLY_P2P, ACL_MEM_MALLOC_HUGE_FIRST,
    ACL_MEM_MALLOC_HUGE_FIRST_P2P, ACL_MEM_MALLOC_HUGE_ONLY, ACL_MEM_MALLOC_HUGE_ONLY_P2P,
    ACL_MEM_MALLOC_NORMAL_ONLY, ACL_MEM_MALLOC_NORMAL_ONLY_P2P,
};

#[test]
fn mem_flags_map_to_acl_policies() {
    assert_eq!(MemFlags::HugeFirst.as_policy(), ACL_MEM_MALLOC_HUGE_FIRST);
    assert_eq!(MemFlags::HugeOnly.as_policy(), ACL_MEM_MALLOC_HUGE_ONLY);
    assert_eq!(MemFlags::NormalOnly.as_policy(), ACL_MEM_MALLOC_NORMAL_ONLY);
    assert_eq!(MemFlags::HugeFirstP2P.as_policy(), ACL_MEM_MALLOC_HUGE_FIRST_P2P);
    assert_eq!(MemFlags::HugeOnlyP2P.as_policy(), ACL_MEM_MALLOC_HUGE_ONLY_P2P);
    assert_eq!(MemFlags::NormalOnlyP2P.as_policy(), ACL_MEM_MALLOC_NORMAL_ONLY_P2P);
    assert_eq!(MemFlags::Huge1GOnly.as_policy(), ACL_MEM_MALLOC_HUGE1G_ONLY);
    assert_eq!(MemFlags::Huge1GOnlyP2P.as_policy(), ACL_MEM_MALLOC_HUGE1G_ONLY_P2P);
}

#[test]
fn mem_flags_debug_format() {
    assert!(format!("{:?}", MemFlags::HugeFirst).contains("HugeFirst"));
}

#[test]
fn device_buffer_alloc_returns_err() {
    assert!(DeviceBuffer::allocate(64, MemFlags::HugeFirst).is_err());
}

#[test]
fn host_buffer_alloc_returns_err() {
    assert!(HostBuffer::allocate(64).is_err());
}

#[test]
fn mem_flags_policies_are_distinct() {
    let all = [
        MemFlags::HugeFirst,
        MemFlags::HugeOnly,
        MemFlags::NormalOnly,
        MemFlags::HugeFirstP2P,
        MemFlags::HugeOnlyP2P,
        MemFlags::NormalOnlyP2P,
        MemFlags::Huge1GOnly,
        MemFlags::Huge1GOnlyP2P,
    ];
    for (i, a) in all.iter().enumerate() {
        assert!((0..8).contains(&a.as_policy()));
        for (j, b) in all.iter().enumerate() {
            assert_eq!(a.as_policy() == b.as_policy(), i == j);
        }
    }
}

#[test]
fn memcpy_kind_maps_to_acl_directions() {
    assert_eq!(MemcpyKind::HostToDevice.as_acl(), ACL_MEMCPY_HOST_TO_DEVICE);
    assert_eq!(MemcpyKind::DeviceToHost.as_acl(), ACL_MEMCPY_DEVICE_TO_HOST);
    assert_eq!(MemcpyKind::DeviceToDevice.as_acl(), ACL_MEMCPY_DEVICE_TO_DEVICE);
}

#[test]
fn copies_report_unavailable_runtime() {
    let e = memcpy(MemcpyKind::HostToDevice, 0, 0, 16).unwrap_err();
    assert_eq!(e.code, -1);
    assert_eq!(e.message, "cann ffi 特性未启用，请以 --features ffi 构建");
    assert!(Stream::new().is_err());
    let e = DeviceBuffer::allocate(1, MemFlags::NormalOnly).unwrap_err();
    assert_eq!(e.code, -1);
}

#[test]
fn async_copy_reports_unavailable_runtime() {
    let stream = Stream {};
    let e = memcpy_async(MemcpyKind::DeviceToDevice, 0, 0, 16, &stream).unwrap_err();
    assert_eq!(e.code, -1);
}

#[test]
fn empty_buffers_have_no_memory() {
    let d = DeviceBuffer {};
    assert_eq!(d.len(), 0);
    assert_eq!(d.as_ptr(), 0);
    assert!(d.is_empty());
    let h = HostBuffer {};
    assert_eq!(h.len(), 0);
    assert_eq!(h.as_ptr(), 0);
    assert_eq!(h.as_mut_ptr(), 0);
    assert!(h.is_empty());
}
