use open_btime::attrs::{c_path, creation_time_selector, creation_time_value, AttrValue, ATTR_CMN_CRTIME};
use open_btime::error::{decimal_text, failure_text, BtimeError};
use open_btime::filetime::{
    filetime_to_unix, join_words, split_intervals, unix_to_filetime, unix_to_intervals, FileTime,
    EPOCH_OFFSET_INTERVALS,
};
use open_btime::path::{decode_path, terminator_index};
use open_btime::setter::{btime, finish, plan, Platform, Request};

#[test]
fn decode_stops_at_first_terminator() {
    assert_eq!(decode_path(b"/tmp/a.txt\0junk\xff\0more"), Some("/tmp/a.txt".to_string()));
    assert_eq!(terminator_index(b"/tmp/a.txt\0junk"), 10);
}

#[test]
fn decode_ignores_trailing_content() {
    let a = decode_path(b"caf\xc3\xa9\0\0\0\0");
    let b = decode_path(b"caf\xc3\xa9\0\xff\xfe\x80");
    assert_eq!(a, Some("caf\u{e9}".to_string()));
    assert_eq!(a, b);
}

#[test]
fn decode_without_terminator_takes_whole_buffer() {
    assert_eq!(decode_path(b"relative/path"), Some("relative/path".to_string()));
    assert_eq!(terminator_index(b"abc"), 3);
}

#[test]
fn decode_empty_and_leading_terminator() {
    assert_eq!(decode_path(b""), Some(String::new()));
    assert_eq!(decode_path(b"\0abc"), Some(String::new()));
}

#[test]
fn decode_rejects_invalid_utf8_before_terminator() {
    assert_eq!(decode_path(b"ab\xffcd\0"), None);
    assert_eq!(decode_path(b"\xc3"), None);
    assert_eq!(decode_path(b"\xed\xa0\x80"), None);
}

#[test]
fn epoch_offset_for_zero_and_one() {
    assert_eq!(unix_to_intervals(0), Some(116_444_736_000_000_000));
    assert_eq!(unix_to_intervals(1), Some(116_444_736_010_000_000));
    assert_eq!(join_words(unix_to_filetime(0).unwrap()), 116_444_736_000_000_000);
    assert_eq!(join_words(unix_to_filetime(1).unwrap()), 116_444_736_010_000_000);
    assert_eq!(EPOCH_OFFSET_INTERVALS, 116_444_736_000_000_000);
}

#[test]
fn split_into_low_and_high_words() {
    let ft = split_intervals(116_444_736_000_000_000);
    assert_eq!(ft, FileTime { low: 0xD53E_8000, high: 0x019D_B1DE });
    assert_eq!(unix_to_filetime(0), Some(ft));
    assert_eq!(split_intervals(u64::MAX), FileTime { low: u32::MAX, high: u32::MAX });
    assert_eq!(join_words(FileTime { low: 7, high: 1 }), 0x1_0000_0007);
}

#[test]
fn filetime_round_trip() {
    for s in [0u64, 1, 59, 1_700_000_000, 4_102_444_800, 1_833_029_933_770] {
        let ft = unix_to_filetime(s).unwrap();
        assert_eq!(filetime_to_unix(ft), Some(s));
    }
}

#[test]
fn filetime_out_of_range() {
    assert_eq!(unix_to_intervals(1_833_029_933_771), None);
    assert_eq!(unix_to_filetime(u64::MAX), None);
    assert!(unix_to_filetime(1_833_029_933_770).is_some());
}

#[test]
fn filetime_before_unix_epoch() {
    assert_eq!(filetime_to_unix(FileTime { low: 0, high: 0 }), None);
    assert_eq!(filetime_to_unix(split_intervals(EPOCH_OFFSET_INTERVALS - 1)), None);
    assert_eq!(filetime_to_unix(split_intervals(EPOCH_OFFSET_INTERVALS + 19_999_999)), Some(1));
}

#[test]
fn selector_names_creation_time_only() {
    let a = creation_time_selector();
    assert_eq!(a.bitmap_count, 5);
    assert_eq!(a.reserved, 0);
    assert_eq!(a.common, 0x200);
    assert_eq!(a.common, ATTR_CMN_CRTIME);
    assert_eq!((a.volume, a.directory, a.file, a.fork), (0, 0, 0, 0));
}

#[test]
fn value_record_holds_whole_seconds() {
    let v = creation_time_value(1_600_000_000).unwrap();
    assert_eq!(v, AttrValue { tv_sec: 1_600_000_000, tv_nsec: 0 });
    assert_eq!(creation_time_value(i64::MAX as u64).unwrap().tv_sec, i64::MAX);
    assert!(creation_time_value(i64::MAX as u64 + 1).is_none());
    assert!(creation_time_value(u64::MAX).is_none());
}

#[test]
fn c_path_appends_terminator() {
    assert_eq!(c_path("/a/b"), Some(b"/a/b\0".to_vec()));
    assert_eq!(c_path(""), Some(vec![0u8]));
    assert_eq!(c_path("\u{e9}"), Some(vec![0xc3, 0xa9, 0]));
}

#[test]
fn c_path_rejects_embedded_zero() {
    assert_eq!(c_path("a\0b"), None);
    assert_eq!(c_path("\0"), None);
}

#[test]
fn decimal_text_values() {
    assert_eq!(decimal_text(0), "0");
    assert_eq!(decimal_text(7), "7");
    assert_eq!(decimal_text(10), "10");
    assert_eq!(decimal_text(1_234_567), "1234567");
    assert_eq!(decimal_text(-1), "-1");
    assert_eq!(decimal_text(i32::MAX), "2147483647");
    assert_eq!(decimal_text(i32::MIN), "-2147483648");
}

#[test]
fn failure_text_shape() {
    assert_eq!(failure_text(2, "/no/such/file"), "(2) utimes(/no/such/file)");
    assert_eq!(failure_text(-1, "x"), "(-1) utimes(x)");
}

#[test]
fn error_messages_and_codes() {
    let os = BtimeError::Os { code: 13, path: "/root/f".to_string() };
    assert_eq!(os.message(), "(13) utimes(/root/f)");
    assert_eq!(os.code(), 13);
    let bad = BtimeError::InvalidPath { path: "a\0b".to_string() };
    assert_eq!(bad.message(), "(-1) utimes(a\0b)");
    assert_eq!(bad.code(), -1);
    let range = BtimeError::TimeOutOfRange { path: "p".to_string() };
    assert_eq!(range.message(), "(-1) utimes(p)");
    assert_eq!(BtimeError::Usage.message(), "bad arguments, expected: (buffer path, seconds btime)");
    assert_eq!(BtimeError::InvalidEncoding.message(), "Invalid UTF-8 in path");
    assert_eq!(BtimeError::Usage.code(), -1);
}

#[test]
fn fewer_than_two_inputs_is_usage_error() {
    let missing = b"/definitely/not/here\0";
    assert!(matches!(btime(Platform::Windows, Some(missing), None), Err(BtimeError::Usage)));
    assert!(matches!(btime(Platform::Mac, None, Some(5)), Err(BtimeError::Usage)));
    assert!(matches!(btime(Platform::Other, None, None), Err(BtimeError::Usage)));
    assert!(matches!(btime(Platform::Mac, None, None), Err(BtimeError::Usage)));
}

#[test]
fn invalid_encoding_asks_for_nothing() {
    for p in [Platform::Windows, Platform::Mac, Platform::Other] {
        let r = btime(p, Some(b"bad\xff\0"), Some(0));
        assert!(matches!(r, Err(BtimeError::InvalidEncoding)));
    }
}

#[test]
fn other_platform_succeeds_without_a_call() {
    let (path, req) = btime(Platform::Other, Some(b"/etc/hostname\0\0\0"), Some(123)).unwrap();
    assert_eq!(path, "/etc/hostname");
    assert!(matches!(req, Request::Nothing));
    assert!(matches!(plan(Platform::Other, "a", u64::MAX), Ok(Request::Nothing)));
}

#[test]
fn windows_request_carries_file_time() {
    let (path, req) = btime(Platform::Windows, Some(b"C:\\f.txt\0zz"), Some(1)).unwrap();
    assert_eq!(path, "C:\\f.txt");
    match req {
        Request::SetFileTime { path, time } => {
            assert_eq!(path, "C:\\f.txt");
            assert_eq!(join_words(time), 116_444_736_010_000_000);
        }
        _ => panic!("expected a file-time request"),
    }
}

#[test]
fn windows_time_out_of_range() {
    match btime(Platform::Windows, Some(b"f"), Some(u64::MAX)) {
        Err(e) => {
            assert!(matches!(e, BtimeError::TimeOutOfRange { .. }));
            assert_eq!(e.message(), "(-1) utimes(f)");
        }
        Ok(_) => panic!("expected an error"),
    }
}

#[test]
fn mac_request_carries_records() {
    let (path, req) = btime(Platform::Mac, Some(b"/Users/x/f\0"), Some(1_500_000_000)).unwrap();
    assert_eq!(path, "/Users/x/f");
    match req {
        Request::SetAttrList { c_path, selector, value } => {
            assert_eq!(c_path, b"/Users/x/f\0".to_vec());
            assert_eq!(selector, creation_time_selector());
            assert_eq!(value, AttrValue { tv_sec: 1_500_000_000, tv_nsec: 0 });
        }
        _ => panic!("expected an attribute-list request"),
    }
}

#[test]
fn mac_rejects_zero_in_path_and_huge_time() {
    assert!(matches!(plan(Platform::Mac, "a\0b", 1), Err(BtimeError::InvalidPath { .. })));
    assert!(matches!(plan(Platform::Mac, "ab", u64::MAX), Err(BtimeError::TimeOutOfRange { .. })));
    assert!(matches!(plan(Platform::Windows, "a\0b", 1), Ok(Request::SetFileTime { .. })));
}

#[test]
fn failure_on_missing_path_names_path_and_code() {
    let r = finish("/no/such/dir/file", Err(Some(2)));
    match r {
        Err(e) => {
            assert_eq!(e.code(), 2);
            let m = e.message();
            assert!(m.contains("/no/such/dir/file"));
            assert!(m.starts_with("(2) "));
        }
        Ok(()) => panic!("expected an error"),
    }
}

#[test]
fn failure_without_code_uses_minus_one() {
    match finish("p", Err(None)) {
        Err(e) => assert_eq!(e.message(), "(-1) utimes(p)"),
        Ok(()) => panic!("expected an error"),
    }
    assert!(finish("p", Ok(())).is_ok());
}

#[test]
fn planned_call_failure_reports_code_and_decoded_path() {
    for p in [Platform::Windows, Platform::Mac] {
        let (path, _req) = btime(p, Some(b"/missing/dir/f.bin\0\xff"), Some(1_000)).unwrap();
        match finish(&path, Err(Some(2))) {
            Err(e) => {
                assert!(matches!(e, BtimeError::Os { code: 2, .. }));
                assert_eq!(e.message(), "(2) utimes(/missing/dir/f.bin)");
            }
            Ok(()) => panic!("expected an error"),
        }
    }
}
