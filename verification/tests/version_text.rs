//! Decimal text, version text and version numbers.

use cann::error::unavailable;
use cann::op::{align_up, OpExecutor, WORKSPACE_ALIGN};
use cann::text::{c_string_to_string, int_to_string, parse_i32_str, split_on_dot};
use cann::version::Version;

#[test]
fn decimal_text() {
    assert_eq!(int_to_string(0), "0");
    assert_eq!(int_to_string(7), "7");
    assert_eq!(int_to_string(1234567890), "1234567890");
    assert_eq!(int_to_string(-42), "-42");
    assert_eq!(int_to_string(i64::MIN), "-9223372036854775808");
    assert_eq!(int_to_string(i64::MAX), "9223372036854775807");
}

#[test]
fn parse_i32_follows_std() {
    for s in ["0", "42", "+42", "-42", "007", "2147483647", "-2147483648", "", "+", "-",
        "2147483648", "-2147483649", "4x", " 4", "1.0", "99999999999999999999"]
    {
        assert_eq!(parse_i32_str(s), s.parse::<i32>().ok(), "{s:?}");
    }
}

#[test]
fn split_follows_std() {
    for s in ["", ".", "8.5.0", "a..b", "8.5.0.", "no dots"] {
        let ours = split_on_dot(s);
        let std_parts: Vec<&str> = s.split('.').collect();
        assert_eq!(ours, std_parts, "{s:?}");
    }
}

#[test]
fn version_text_and_number() {
    assert_eq!(Version::text_from_parts(8, 5, 0), "8.5.0");
    assert_eq!(Version::number_from_parts(8, 5, 0), 80_500_000);
    assert_eq!(Version::number_from_parts(9, 0, 0), 90_000_000);
    assert_eq!(Version::parts_from_text("8.5.0"), Some((8, 5, 0)));
    assert_eq!(Version::parts_from_text("8.5.0.beta"), Some((8, 5, 0)));
    assert_eq!(Version::parts_from_text("8.5"), None);
    assert_eq!(Version::parts_from_text("8.x.0"), None);
}

#[test]
fn version_text_reads_back() {
    for (a, b, c) in [(8, 5, 0), (7, 0, 1), (0, 0, 0), (-1, 12, 300)] {
        let t = Version::text_from_parts(a, b, c);
        assert_eq!(Version::parts_from_text(&t), Some((a, b, c)));
    }
}

#[test]
fn version_probe_order() {
    let s = Version::str_from_probes(Some("8.5.0".to_string()), Some("8.0.0".to_string()), Ok((7, 0, 0)));
    assert_eq!(s.unwrap(), "8.5.0");
    let s = Version::str_from_probes(None, Some("8.0.0".to_string()), Ok((7, 0, 0)));
    assert_eq!(s.unwrap(), "8.0.0");
    let s = Version::str_from_probes(None, None, Ok((7, 0, 1)));
    assert_eq!(s.unwrap(), "7.0.1");
    let e = Version::str_from_probes(None, None, Err(cann::Error::from(100_003))).unwrap_err();
    assert_eq!(e.code, 100_003);

    assert_eq!(Version::num_from_probes(Some(80_501_000), None, Ok((7, 0, 0))).unwrap(), 80_501_000);
    assert_eq!(Version::num_from_probes(None, Some("8.0.0".to_string()), Ok((7, 0, 0))).unwrap(), 80_000_000);
    assert_eq!(Version::num_from_probes(None, Some("garbled".to_string()), Ok((7, 0, 1))).unwrap(), 70_001_000);
    let e = Version::num_from_probes(None, Some("8.0".to_string()), Err(unavailable())).unwrap_err();
    assert_eq!(e.code, -1);
}

#[test]
fn str_and_num_consistent_for_component_version() {
    let t = Version::str_from_probes(None, None, Ok((8, 5, 0))).unwrap();
    let n = Version::num_from_probes(None, None, Ok((8, 5, 0))).unwrap();
    let (a, b, c) = Version::parts_from_text(&t).unwrap();
    assert_eq!(n as i64, a as i64 * 10_000_000 + b as i64 * 100_000 + c as i64 * 1000);
}

#[test]
fn version_queries_report_unavailable_runtime() {
    assert_eq!(Version::str().unwrap_err().code, -1);
    assert_eq!(Version::num().unwrap_err().code, -1);
}

#[test]
fn align_up_rounds_to_power_of_two() {
    assert_eq!(align_up(0, 64), 0);
    assert_eq!(align_up(1, 64), 64);
    assert_eq!(align_up(64, 64), 64);
    assert_eq!(align_up(100, 64), 128);
    assert_eq!(align_up(13, 1), 13);
    assert_eq!(align_up(13, 8), 16);
}

#[test]
fn workspace_layout() {
    let cap = OpExecutor::workspace_capacity(0, 1000, false).unwrap();
    assert_eq!(cap, 1000 + WORKSPACE_ALIGN - 1);
    let e = OpExecutor::workspace_capacity(161_002, 1000, false).unwrap_err();
    assert_eq!(e.code, 161_002);
    assert_eq!(e.message, "aclnn 调用失败: 161002");
    let e = OpExecutor::workspace_capacity(0, 1000, true).unwrap_err();
    assert_eq!(e.code, -1);
    assert_eq!(e.message, "GetWorkspaceSize 返回空执行器句柄");
    for base in [0usize, 1, 63, 64, 65, 4097] {
        let start = OpExecutor::workspace_start(base);
        assert_eq!(start % 64, 0);
        assert!(start >= base && start - base < 64);
        assert!(start + 1000 <= base + cap);
    }
}

#[test]
fn package_answers() {
    let mut buf = [0u8; 128];
    buf[..5].copy_from_slice(b"8.5.0");
    assert_eq!(Version::package_answer(0, &buf).unwrap(), "8.5.0");
    let e = Version::package_answer(100_003, &buf).unwrap_err();
    assert_eq!(e.code, 100_003);
    let mut bad = [0u8; 8];
    bad[0] = 0xff;
    assert_eq!(Version::package_answer(0, &bad).unwrap(), "");
}

#[test]
fn c_strings() {
    assert_eq!(c_string_to_string(b"abc\0def"), "abc");
    assert_eq!(c_string_to_string(b"no terminator"), "no terminator");
    assert_eq!(c_string_to_string(b"\0"), "");
    assert_eq!(c_string_to_string("版本\0".as_bytes()), "版本");
}
