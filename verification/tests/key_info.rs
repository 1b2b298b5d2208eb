use cdp_input::keys::{char_to_key_info, code_to_virtual_key_code, named_key_info, named_key_info_lowered};

fn triple(key: &str, code: &str, key_code: i32) -> (String, String, i32) {
    (key.to_string(), code.to_string(), key_code)
}

#[test]
fn whitespace_characters_map_to_named_keys() {
    assert_eq!(char_to_key_info('\n'), triple("Enter", "Enter", 13));
    assert_eq!(char_to_key_info('\r'), triple("Enter", "Enter", 13));
    assert_eq!(char_to_key_info('\t'), triple("Tab", "Tab", 9));
    assert_eq!(char_to_key_info(' '), triple(" ", "Space", 32));
}

#[test]
fn letters_digits_and_other_characters() {
    assert_eq!(char_to_key_info('a'), triple("a", "KeyA", 97));
    assert_eq!(char_to_key_info('z'), triple("z", "KeyZ", 122));
    assert_eq!(char_to_key_info('Q'), triple("Q", "KeyQ", 81));
    assert_eq!(char_to_key_info('5'), triple("5", "Digit5", 53));
    assert_eq!(char_to_key_info('-'), triple("-", "", 45));
    assert_eq!(char_to_key_info('\u{e9}'), triple("\u{e9}", "", 233));
    assert_eq!(char_to_key_info('\u{1f600}'), triple("\u{1f600}", "", 0x1f600));
}

#[test]
fn named_keys_ignore_case_and_aliases() {
    assert_eq!(named_key_info("Enter"), triple("Enter", "Enter", 13));
    assert_eq!(named_key_info("RETURN"), triple("Enter", "Enter", 13));
    assert_eq!(named_key_info("tab"), triple("Tab", "Tab", 9));
    assert_eq!(named_key_info("Esc"), triple("Escape", "Escape", 27));
    assert_eq!(named_key_info("escape"), triple("Escape", "Escape", 27));
    assert_eq!(named_key_info("Backspace"), triple("Backspace", "Backspace", 8));
    assert_eq!(named_key_info("DELETE"), triple("Delete", "Delete", 46));
    assert_eq!(named_key_info("up"), triple("ArrowUp", "ArrowUp", 38));
    assert_eq!(named_key_info("ArrowDown"), triple("ArrowDown", "ArrowDown", 40));
    assert_eq!(named_key_info("Left"), triple("ArrowLeft", "ArrowLeft", 37));
    assert_eq!(named_key_info("arrowright"), triple("ArrowRight", "ArrowRight", 39));
    assert_eq!(named_key_info("Home"), triple("Home", "Home", 36));
    assert_eq!(named_key_info("End"), triple("End", "End", 35));
    assert_eq!(named_key_info("PageUp"), triple("PageUp", "PageUp", 33));
    assert_eq!(named_key_info("pagedown"), triple("PageDown", "PageDown", 34));
    assert_eq!(named_key_info("Space"), triple(" ", "Space", 32));
    assert_eq!(named_key_info(" "), triple(" ", "Space", 32));
}

#[test]
fn single_ascii_character_names_are_typed_characters() {
    assert_eq!(named_key_info("a"), triple("a", "KeyA", 97));
    assert_eq!(named_key_info("A"), triple("A", "KeyA", 65));
    assert_eq!(named_key_info("7"), triple("7", "Digit7", 55));
    assert_eq!(named_key_info("\n"), triple("Enter", "Enter", 13));
    assert_eq!(named_key_info("/"), triple("/", "", 47));
}

#[test]
fn other_names_are_sent_as_given() {
    assert_eq!(named_key_info("F5"), triple("F5", "F5", 0));
    assert_eq!(named_key_info("Shift"), triple("Shift", "Shift", 0));
    assert_eq!(named_key_info(""), triple("", "", 0));
    // One character, but not ASCII: sent as given.
    assert_eq!(named_key_info("\u{e9}"), triple("\u{e9}", "\u{e9}", 0));
}

#[test]
fn names_are_lowered_by_unicode_rules() {
    // U+212A KELVIN SIGN lower-cases to an ASCII 'k'.
    assert_eq!(named_key_info("BAC\u{212a}SPACE"), triple("Backspace", "Backspace", 8));
    assert_eq!(named_key_info("\u{212a}"), triple("\u{212a}", "\u{212a}", 0));
}

#[test]
fn lowered_form_decides_the_named_key() {
    assert_eq!(named_key_info_lowered("X", "enter"), triple("Enter", "Enter", 13));
    assert_eq!(named_key_info_lowered("x", "x"), triple("x", "KeyX", 120));
    assert_eq!(named_key_info_lowered("Foo", "foo"), triple("Foo", "Foo", 0));
}

#[test]
fn pressed_key_codes_agree_with_code_table() {
    for name in [
        "enter", "return", "tab", "escape", "esc", "backspace", "delete", "arrowup", "up", "arrowdown",
        "down", "arrowleft", "left", "arrowright", "right", "home", "end", "pageup", "pagedown",
        "space", " ", "A", "Z", "0", "9", "\n", "\t",
    ] {
        let (_, code, key_code) = named_key_info(name);
        assert_eq!(code_to_virtual_key_code(&code), key_code, "{}", name);
    }
    // A lower-case letter is sent with its own character value, not its code's.
    let (_, code, key_code) = named_key_info("a");
    assert_eq!(key_code, 97);
    assert_eq!(code_to_virtual_key_code(&code), 65);
}

#[test]
fn named_key_results_depend_only_on_lower_case_form() {
    assert_eq!(named_key_info("PageUp"), named_key_info("PAGEUP"));
    assert_eq!(named_key_info("Escape"), named_key_info("eScApE"));
}

#[test]
fn a_name_and_its_lower_case_form_press_the_same_key() {
    for name in ["TAB", "Tab", "tab", "PageUp", "ESC", "BAC\u{212a}SPACE", "Space", "ArrowLEFT"] {
        assert_eq!(named_key_info(name), named_key_info(&name.to_lowercase()), "{}", name);
    }
}

#[test]
fn named_key_codes_stay_below_128() {
    for name in ["", "a", "\u{7f}", "~", "\u{e9}", "F12", "Enter", "\u{1f600}"] {
        let (_, _, key_code) = named_key_info(name);
        assert!((0..=127).contains(&key_code), "{}", name);
    }
}
