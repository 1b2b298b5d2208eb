use cdp_input::keys::code_to_virtual_key_code;

#[test]
fn editing_and_whitespace_keys() {
    assert_eq!(code_to_virtual_key_code("Backspace"), 8);
    assert_eq!(code_to_virtual_key_code("Tab"), 9);
    assert_eq!(code_to_virtual_key_code("Enter"), 13);
    assert_eq!(code_to_virtual_key_code("NumpadEnter"), 13);
    assert_eq!(code_to_virtual_key_code("Escape"), 27);
    assert_eq!(code_to_virtual_key_code("Space"), 32);
    assert_eq!(code_to_virtual_key_code("Delete"), 46);
}

#[test]
fn navigation_keys() {
    assert_eq!(code_to_virtual_key_code("ArrowLeft"), 37);
    assert_eq!(code_to_virtual_key_code("ArrowUp"), 38);
    assert_eq!(code_to_virtual_key_code("ArrowRight"), 39);
    assert_eq!(code_to_virtual_key_code("ArrowDown"), 40);
    assert_eq!(code_to_virtual_key_code("Home"), 36);
    assert_eq!(code_to_virtual_key_code("End"), 35);
    assert_eq!(code_to_virtual_key_code("PageUp"), 33);
    assert_eq!(code_to_virtual_key_code("PageDown"), 34);
    assert_eq!(code_to_virtual_key_code("Insert"), 45);
}

#[test]
fn modifier_keys() {
    assert_eq!(code_to_virtual_key_code("ShiftLeft"), 16);
    assert_eq!(code_to_virtual_key_code("ShiftRight"), 16);
    assert_eq!(code_to_virtual_key_code("ControlLeft"), 17);
    assert_eq!(code_to_virtual_key_code("ControlRight"), 17);
    assert_eq!(code_to_virtual_key_code("AltLeft"), 18);
    assert_eq!(code_to_virtual_key_code("AltRight"), 18);
    assert_eq!(code_to_virtual_key_code("MetaLeft"), 91);
    assert_eq!(code_to_virtual_key_code("MetaRight"), 93);
    assert_eq!(code_to_virtual_key_code("CapsLock"), 20);
    assert_eq!(code_to_virtual_key_code("NumLock"), 144);
    assert_eq!(code_to_virtual_key_code("ScrollLock"), 145);
}

#[test]
fn function_keys() {
    for (i, expected) in (112..=123).enumerate() {
        let code = format!("F{}", i + 1);
        assert_eq!(code_to_virtual_key_code(&code), expected);
    }
}

#[test]
fn punctuation_keys() {
    assert_eq!(code_to_virtual_key_code("Minus"), 189);
    assert_eq!(code_to_virtual_key_code("Equal"), 187);
    assert_eq!(code_to_virtual_key_code("BracketLeft"), 219);
    assert_eq!(code_to_virtual_key_code("BracketRight"), 221);
    assert_eq!(code_to_virtual_key_code("Backslash"), 220);
    assert_eq!(code_to_virtual_key_code("Semicolon"), 186);
    assert_eq!(code_to_virtual_key_code("Quote"), 222);
    assert_eq!(code_to_virtual_key_code("Comma"), 188);
    assert_eq!(code_to_virtual_key_code("Period"), 190);
    assert_eq!(code_to_virtual_key_code("Slash"), 191);
    assert_eq!(code_to_virtual_key_code("Backquote"), 192);
}

#[test]
fn letter_keys() {
    assert_eq!(code_to_virtual_key_code("KeyA"), 65);
    assert_eq!(code_to_virtual_key_code("KeyZ"), 90);
    assert_eq!(code_to_virtual_key_code("KeyM"), 77);
}

#[test]
fn digit_keys() {
    assert_eq!(code_to_virtual_key_code("Digit0"), 48);
    assert_eq!(code_to_virtual_key_code("Digit9"), 57);
    assert_eq!(code_to_virtual_key_code("Digit5"), 53);
}

#[test]
fn unknown_code_returns_zero() {
    assert_eq!(code_to_virtual_key_code(""), 0);
    assert_eq!(code_to_virtual_key_code("UnknownKey"), 0);
    assert_eq!(code_to_virtual_key_code("Keya"), 0);
    assert_eq!(code_to_virtual_key_code("DigitX"), 0);
}

#[test]
fn codes_are_case_sensitive_and_exact() {
    assert_eq!(code_to_virtual_key_code("enter"), 0);
    assert_eq!(code_to_virtual_key_code("Enter "), 0);
    assert_eq!(code_to_virtual_key_code("F13"), 0);
    assert_eq!(code_to_virtual_key_code("F0"), 0);
    assert_eq!(code_to_virtual_key_code("KeyAB"), 0);
    assert_eq!(code_to_virtual_key_code("Key"), 0);
    assert_eq!(code_to_virtual_key_code("Digit10"), 0);
    assert_eq!(code_to_virtual_key_code("Key\u{c9}"), 0);
    assert_eq!(code_to_virtual_key_code("Digit\u{661}"), 0);
}

#[test]
fn every_letter_and_digit_code_maps_to_its_ascii_value() {
    for c in 'A'..='Z' {
        assert_eq!(code_to_virtual_key_code(&format!("Key{}", c)), c as i32);
    }
    for c in '0'..='9' {
        assert_eq!(code_to_virtual_key_code(&format!("Digit{}", c)), c as i32);
    }
}
