use key_tunnel::mapping::{pause, to_linux};
use key_tunnel::protocol::MAX_LINUX_KEY_CODE;
use std::collections::HashSet;

#[test]
fn distinguishes_enter() {
    assert_eq!(to_linux(0x1c, false), Some(28));
    assert_eq!(to_linux(0x1c, true), Some(96));
}

#[test]
fn distinguishes_modifiers() {
    assert_eq!(to_linux(0x1d, false), Some(29));
    assert_eq!(to_linux(0x1d, true), Some(97));
    assert_eq!(to_linux(0x38, false), Some(56));
    assert_eq!(to_linux(0x38, true), Some(100));
}

#[test]
fn special_keys() {
    assert_eq!(to_linux(0x37, true), Some(99));
    assert_eq!(pause(), 119);
    assert_eq!(to_linux(0x64, false), Some(183));
}

#[test]
fn unmapped_scan_codes() {
    assert_eq!(to_linux(0x00, false), None);
    assert_eq!(to_linux(0x54, false), None);
    assert_eq!(to_linux(0x01, true), None);
    assert_eq!(to_linux(0x1000, false), None);
}

#[test]
fn no_two_keys_share_a_code() {
    let mut seen = HashSet::new();
    seen.insert(pause());
    for scan in 0..0x200u32 {
        for extended in [false, true] {
            if let Some(code) = to_linux(scan, extended) {
                assert!(code >= 1 && code <= MAX_LINUX_KEY_CODE);
                assert!(seen.insert(code), "code {code} mapped twice");
            }
        }
    }
    assert_eq!(seen.len(), 36 + 99 + 1);
}
