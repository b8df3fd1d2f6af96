#[test]
fn unix_open_outcome() {
    assert_eq!(fslock::unix::open_outcome(3, 0).unwrap(), 3);
    assert_eq!(fslock::unix::open_outcome(0, 0).unwrap(), 0);
    let err = fslock::unix::open_outcome(-1, 2).unwrap_err();
    assert_eq!(err.raw_os_error(), Some(2));
}

#[test]
fn unix_lock_outcome() {
    assert!(fslock::unix::lock_outcome(0, 0).is_ok());
    let err = fslock::unix::lock_outcome(-1, 9).unwrap_err();
    assert_eq!(err.raw_os_error(), Some(9));
}

#[test]
fn unix_try_lock_contention_is_not_an_error() {
    // EAGAIN and EACCES are the contention signals of this platform family.
    assert_eq!(fslock::unix::try_lock_outcome(-1, 11).unwrap(), false);
    assert_eq!(fslock::unix::try_lock_outcome(-1, 13).unwrap(), false);
}

#[test]
fn unix_try_lock_success_and_error() {
    assert_eq!(fslock::unix::try_lock_outcome(0, 0).unwrap(), true);
    let err = fslock::unix::try_lock_outcome(-1, 9).unwrap_err();
    assert_eq!(err.raw_os_error(), Some(9));
}

#[test]
fn unix_unlock_and_remove_outcomes() {
    assert!(fslock::unix::unlock_outcome(0, 0).is_ok());
    assert_eq!(fslock::unix::unlock_outcome(-1, 22).unwrap_err().raw_os_error(), Some(22));
    assert!(fslock::unix::remove_outcome(0, 0).is_ok());
    assert_eq!(fslock::unix::remove_outcome(-1, 2).unwrap_err().raw_os_error(), Some(2));
}

#[test]
fn windows_open_outcome() {
    assert_eq!(fslock::windows::open_outcome(5, 0).unwrap(), 5);
    let err = fslock::windows::open_outcome(fslock::windows::INVALID_HANDLE, 2).unwrap_err();
    assert_eq!(err.raw_os_error(), Some(2));
}

#[test]
fn windows_remove_outcome() {
    assert!(fslock::windows::remove_outcome(1, 0).is_ok());
    let err = fslock::windows::remove_outcome(0, 5).unwrap_err();
    assert_eq!(err.raw_os_error(), Some(5));
}

#[test]
fn windows_lock_outcome() {
    assert!(fslock::windows::lock_outcome(1, 0, 0).is_ok());
    let err = fslock::windows::lock_outcome(0, 0, 5).unwrap_err();
    assert_eq!(err.raw_os_error(), Some(5));
    let err = fslock::windows::lock_outcome(1, 0xffff_ffff, 6).unwrap_err();
    assert_eq!(err.raw_os_error(), Some(6));
}

#[test]
fn windows_try_lock_contention_is_not_an_error() {
    // A lock violation signals contention and must not surface as an error.
    assert_eq!(fslock::windows::try_lock_outcome(0, 0, 33).unwrap(), false);
}

#[test]
fn windows_try_lock_success_and_error() {
    assert_eq!(fslock::windows::try_lock_outcome(1, 0, 0).unwrap(), true);
    let err = fslock::windows::try_lock_outcome(0, 0, 5).unwrap_err();
    assert_eq!(err.raw_os_error(), Some(5));
    let err = fslock::windows::try_lock_outcome(1, 0xffff_ffff, 7).unwrap_err();
    assert_eq!(err.raw_os_error(), Some(7));
}

#[test]
fn windows_unlock_outcome() {
    assert!(fslock::windows::unlock_outcome(1, 0, 0).is_ok());
    let err = fslock::windows::unlock_outcome(0, 0, 5).unwrap_err();
    assert_eq!(err.raw_os_error(), Some(5));
}

#[test]
fn wide_str_decodes_basic_units() {
    let units: Vec<u16> = "ab cd".encode_utf16().collect();
    assert_eq!(fslock::windows::write_wide_str(&units), "ab cd");
}

#[test]
fn wide_str_combines_surrogate_pairs() {
    let units: [u16; 2] = [0xd834, 0xdd1e];
    assert_eq!(fslock::windows::write_wide_str(&units), "\u{1d11e}");
}

#[test]
fn wide_str_mixed_text() {
    let units: Vec<u16> = "a\u{20ac}\u{1d11e}z".encode_utf16().collect();
    assert_eq!(fslock::windows::write_wide_str(&units), "a\u{20ac}\u{1d11e}z");
}

#[test]
fn wide_wf_check() {
    assert!(fslock::windows::wide_is_wf(&[0x61, 0x62]));
    assert!(fslock::windows::wide_is_wf(&[0xd834, 0xdd1e, 0x61]));
    // A high surrogate at the end of the text stands unpaired.
    assert!(!fslock::windows::wide_is_wf(&[0x61, 0xd834]));
    // A high surrogate followed by anything but a low surrogate.
    assert!(!fslock::windows::wide_is_wf(&[0xd834, 0x61]));
    // A lone low surrogate.
    assert!(!fslock::windows::wide_is_wf(&[0xdd1e]));
}

#[test]
fn wide_str_empty() {
    let units: [u16; 0] = [];
    assert_eq!(fslock::windows::write_wide_str(&units), "");
}
