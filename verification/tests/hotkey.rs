use key_tunnel::hotkey::{Hotkey, HotkeyError, NumberError, MOD_ALT, MOD_CONTROL, MOD_SHIFT, MOD_WIN};
use key_tunnel::text::white_space;

#[test]
fn parses_recommended_hotkeys() {
    assert_eq!(
        Hotkey::parse("Ctrl+Alt+Pause").unwrap(),
        Hotkey {
            modifiers: MOD_CONTROL | MOD_ALT,
            vk: 0x13
        }
    );
    assert_eq!(Hotkey::parse("Ctrl+Shift+F11").unwrap().vk, 0x7a);
}

#[test]
fn rejects_unknown_keys() {
    assert!(Hotkey::parse("Ctrl+Banana").is_err());
}

#[test]
fn hotkey_parts_are_trimmed_and_case_insensitive() {
    assert_eq!(
        Hotkey::parse("  control + SHIFT+ super +win+ x ").unwrap(),
        Hotkey {
            modifiers: MOD_CONTROL | MOD_SHIFT | MOD_WIN,
            vk: 'X' as u32
        }
    );
    assert_eq!(
        Hotkey::parse("alt++f24").unwrap(),
        Hotkey {
            modifiers: MOD_ALT,
            vk: 0x6f + 24
        }
    );
    assert_eq!(Hotkey::parse("Ctrl+\u{3000}Home\t").unwrap().vk, 0x24);
    assert_eq!(Hotkey::parse("Ctrl+insert").unwrap().vk, 0x2d);
    assert_eq!(Hotkey::parse("Ctrl+Delete").unwrap().vk, 0x2e);
    assert_eq!(Hotkey::parse("Ctrl+end").unwrap().vk, 0x23);
    assert_eq!(Hotkey::parse("Ctrl+F001").unwrap().vk, 0x70);
    assert_eq!(Hotkey::parse("Ctrl+1").unwrap().vk, '1' as u32);
}

#[test]
fn hotkey_errors() {
    assert!(matches!(Hotkey::parse("Pause"), Err(HotkeyError::TooFewParts)));
    assert!(matches!(Hotkey::parse(" + +Pause+ "), Err(HotkeyError::TooFewParts)));
    assert!(matches!(Hotkey::parse(""), Err(HotkeyError::TooFewParts)));
    match Hotkey::parse("Ctrl+ Meta +A") {
        Err(HotkeyError::UnknownModifier(m)) => assert_eq!(m, "Meta"),
        other => panic!("{other:?}"),
    }
    match Hotkey::parse("Ctrl+Banana") {
        Err(HotkeyError::UnsupportedKey(k)) => assert_eq!(k, "BANANA"),
        other => panic!("{other:?}"),
    }
    match Hotkey::parse("Ctrl+é") {
        Err(HotkeyError::UnsupportedKey(k)) => assert_eq!(k, "é"),
        other => panic!("{other:?}"),
    }
    assert!(matches!(
        Hotkey::parse("Ctrl+F"),
        Err(HotkeyError::BadFunctionNumber(NumberError::Empty))
    ));
    assert!(matches!(
        Hotkey::parse("Ctrl+Foo"),
        Err(HotkeyError::BadFunctionNumber(NumberError::InvalidDigit))
    ));
    assert!(matches!(
        Hotkey::parse("Ctrl+F1-"),
        Err(HotkeyError::BadFunctionNumber(NumberError::InvalidDigit))
    ));
    assert!(matches!(
        Hotkey::parse("Ctrl+F99999999999"),
        Err(HotkeyError::BadFunctionNumber(NumberError::Overflow))
    ));
    assert!(matches!(
        Hotkey::parse("Ctrl+F99999999999X"),
        Err(HotkeyError::BadFunctionNumber(NumberError::Overflow))
    ));
    assert!(matches!(Hotkey::parse("Ctrl+F0"), Err(HotkeyError::FunctionKeyOutOfRange)));
    assert!(matches!(Hotkey::parse("Ctrl+F25"), Err(HotkeyError::FunctionKeyOutOfRange)));
    assert!(matches!(
        Hotkey::parse("Ctrl+F4294967295"),
        Err(HotkeyError::FunctionKeyOutOfRange)
    ));
    assert!(matches!(
        Hotkey::parse("Ctrl+F4294967296"),
        Err(HotkeyError::BadFunctionNumber(NumberError::Overflow))
    ));
}

#[test]
fn white_space_matches_std() {
    for u in 0..0x11000u32 {
        if let Some(c) = char::from_u32(u) {
            assert_eq!(white_space(c), c.is_whitespace(), "U+{u:04X}");
        }
    }
}

#[test]
fn function_numbers_agree_with_std() {
    let kind = |text: &str| match text.parse::<u32>() {
        Ok(n) => Ok(n),
        Err(e) => Err(match e.kind() {
            std::num::IntErrorKind::Empty => NumberError::Empty,
            std::num::IntErrorKind::PosOverflow => NumberError::Overflow,
            _ => NumberError::InvalidDigit,
        }),
    };
    for digits in ["", "0", "7", "24", "25", "x", "1x", "4294967295", "4294967296", "99999999999x", "007", "-1"] {
        let expected = match kind(digits) {
            Ok(n) if (1..=24).contains(&n) => Ok(0x6f + n),
            Ok(_) => Err(None),
            Err(e) => Err(Some(e)),
        };
        let got = match Hotkey::parse(&format!("Ctrl+F{digits}")) {
            Ok(h) => Ok(h.vk),
            Err(HotkeyError::FunctionKeyOutOfRange) => Err(None),
            Err(HotkeyError::BadFunctionNumber(e)) => Err(Some(e)),
            Err(other) => panic!("{other:?}"),
        };
        assert_eq!(got, expected, "F{digits}");
    }
}
