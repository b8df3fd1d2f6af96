use fslock::unix::{bytes_are_native, make_os_str, EitherOsStr, IntoOsString, OsStr, ToOsStr};

#[test]
fn terminated_input_is_borrowed() {
    let either = "lockfile\0".to_os_str().unwrap();
    match either {
        EitherOsStr::Borrowed(s) => {
            assert_eq!(s.as_bytes(), b"lockfile\0");
        }
        EitherOsStr::Owned(_) => panic!("already-terminated input must not allocate"),
    }
}

#[test]
fn unterminated_input_allocates_len_plus_one() {
    let either = "lockfile".to_os_str().unwrap();
    match either {
        EitherOsStr::Borrowed(_) => panic!("unterminated input must allocate"),
        EitherOsStr::Owned(s) => {
            assert_eq!(s.as_bytes(), b"lockfile\0");
            assert_eq!(s.as_bytes().len(), "lockfile".len() + 1);
        }
    }
}

#[test]
fn empty_input_allocates_single_terminator() {
    let either = make_os_str(b"").unwrap();
    match either {
        EitherOsStr::Borrowed(_) => panic!("empty input must allocate"),
        EitherOsStr::Owned(s) => assert_eq!(s.as_bytes(), b"\0"),
    }
}

#[test]
fn lone_terminator_is_borrowed() {
    let either = make_os_str(b"\0").unwrap();
    assert!(matches!(either, EitherOsStr::Borrowed(_)));
    match either {
        EitherOsStr::Borrowed(s) => assert_eq!(s.as_bytes(), b"\0"),
        EitherOsStr::Owned(_) => unreachable!(),
    }
}

#[test]
fn into_os_string_copies_borrowed_bytes() {
    let source = b"path\0";
    let borrowed = OsStr::from_bytes(source);
    let owned = borrowed.into_os_string().unwrap();
    assert_eq!(owned.as_bytes(), b"path\0");
}

#[test]
fn into_os_string_from_str_appends_terminator() {
    let owned = "ab".into_os_string().unwrap();
    assert_eq!(owned.as_bytes(), b"ab\0");
}

#[test]
fn into_os_string_keeps_owned_value() {
    let either = "xy".to_os_str().unwrap();
    let owned = either.into_os_string().unwrap();
    assert_eq!(owned.as_bytes(), b"xy\0");
}

#[test]
fn native_check_accepts_terminated_bytes() {
    assert!(bytes_are_native(b"ab\0"));
    assert!(bytes_are_native(b"\0"));
}

#[test]
fn native_check_rejects_defects() {
    assert!(!bytes_are_native(b""));
    assert!(!bytes_are_native(b"ab"));
    assert!(!bytes_are_native(b"a\0b\0"));
    assert!(!bytes_are_native(b"\0\0"));
}

#[test]
fn display_decodes_valid_utf8() {
    let s = OsStr::from_bytes(b"abc\0");
    assert_eq!(s.display(), "abc");
}

#[test]
fn display_decodes_multibyte_utf8() {
    let s = OsStr::from_bytes("caf\u{e9} \u{20ac} \u{1d11e}\0".as_bytes());
    assert_eq!(s.display(), "caf\u{e9} \u{20ac} \u{1d11e}");
}

#[test]
fn display_resynchronizes_after_invalid_byte() {
    let s = OsStr::from_bytes(&[0x61, 0xff, 0x62, 0x00]);
    assert_eq!(s.display(), "a\u{fffd}b");
}

#[test]
fn display_marks_each_invalid_byte() {
    // An overlong 2-byte encoding: the leading byte is rejected, then the
    // continuation byte standing alone is rejected as well.
    let s = OsStr::from_bytes(&[0xc0, 0xaf, 0x00]);
    assert_eq!(s.display(), "\u{fffd}\u{fffd}");
}

#[test]
fn display_marks_truncated_sequence() {
    let s = OsStr::from_bytes(&[0x61, 0xc2, 0x00]);
    assert_eq!(s.display(), "a\u{fffd}");
}

#[test]
fn display_rejects_surrogate_encoding() {
    // 0xed 0xa0 0x80 encodes a surrogate value, which is not a scalar.
    let s = OsStr::from_bytes(&[0xed, 0xa0, 0x80, 0x00]);
    assert_eq!(s.display(), "\u{fffd}\u{fffd}\u{fffd}");
}

#[test]
fn display_of_owned_matches_borrowed() {
    let owned = "na\u{ef}ve".into_os_string().unwrap();
    assert_eq!(owned.display(), "na\u{ef}ve");
    assert_eq!(owned.as_os_str().display(), "na\u{ef}ve");
}
