//! Keyboard tables: DOM `KeyboardEvent.code` values to Windows virtual key
//! codes, and the key, code and key code sent for a typed character or a
//! named key.
use vstd::prelude::*;

use crate::text::{ascii_lowercase, char_to_string, is_ascii_char, is_ascii_text, lowercase, same_text, to_lowercase_string};

verus! {

/// Whether `c` is an ASCII upper-case letter.
pub open spec fn is_ascii_upper(c: char) -> bool {
    'A' <= c <= 'Z'
}

/// Whether `c` is an ASCII decimal digit.
pub open spec fn is_ascii_digit(c: char) -> bool {
    '0' <= c <= '9'
}

/// `code` has the shape `Key?`: four characters starting with "Key".
pub open spec fn has_letter_code_shape(code: Seq<char>) -> bool {
    &&& code.len() == 4
    &&& code[0] == 'K'
    &&& code[1] == 'e'
    &&& code[2] == 'y'
}

/// `code` has the shape `Digit?`: six characters starting with "Digit".
pub open spec fn has_digit_code_shape(code: Seq<char>) -> bool {
    &&& code.len() == 6
    &&& code[0] == 'D'
    &&& code[1] == 'i'
    &&& code[2] == 'g'
    &&& code[3] == 'i'
    &&& code[4] == 't'
}

/// The Windows virtual key code of a DOM `KeyboardEvent.code` value, 0 where
/// the code is not recognized.
pub open spec fn virtual_key_code(code: Seq<char>) -> int {
    // Editing & whitespace
    if code == "Backspace"@ { 8 }
    else if code == "Tab"@ { 9 }
    else if code == "Enter"@ || code == "NumpadEnter"@ { 13 }
    else if code == "Escape"@ { 27 }
    else if code == "Space"@ { 32 }
    else if code == "Delete"@ { 46 }
    // Navigation
    else if code == "ArrowLeft"@ { 37 }
    else if code == "ArrowUp"@ { 38 }
    else if code == "ArrowRight"@ { 39 }
    else if code == "ArrowDown"@ { 40 }
    else if code == "Home"@ { 36 }
    else if code == "End"@ { 35 }
    else if code == "PageUp"@ { 33 }
    else if code == "PageDown"@ { 34 }
    else if code == "Insert"@ { 45 }
    // Modifiers
    else if code == "ShiftLeft"@ || code == "ShiftRight"@ { 16 }
    else if code == "ControlLeft"@ || code == "ControlRight"@ { 17 }
    else if code == "AltLeft"@ || code == "AltRight"@ { 18 }
    else if code == "MetaLeft"@ { 91 }
    else if code == "MetaRight"@ { 93 }
    else if code == "CapsLock"@ { 20 }
    else if code == "NumLock"@ { 144 }
    else if code == "ScrollLock"@ { 145 }
    // Function keys
    else if code == "F1"@ { 112 }
    else if code == "F2"@ { 113 }
    else if code == "F3"@ { 114 }
    else if code == "F4"@ { 115 }
    else if code == "F5"@ { 116 }
    else if code == "F6"@ { 117 }
    else if code == "F7"@ { 118 }
    else if code == "F8"@ { 119 }
    else if code == "F9"@ { 120 }
    else if code == "F10"@ { 121 }
    else if code == "F11"@ { 122 }
    else if code == "F12"@ { 123 }
    // Punctuation
    else if code == "Minus"@ { 189 }
    else if code == "Equal"@ { 187 }
    else if code == "BracketLeft"@ { 219 }
    else if code == "BracketRight"@ { 221 }
    else if code == "Backslash"@ { 220 }
    else if code == "Semicolon"@ { 186 }
    else if code == "Quote"@ { 222 }
    else if code == "Comma"@ { 188 }
    else if code == "Period"@ { 190 }
    else if code == "Slash"@ { 191 }
    else if code == "Backquote"@ { 192 }
    // Letters: KeyA(65)..KeyZ(90)
    else if has_letter_code_shape(code) {
        if is_ascii_upper(code[3]) { code[3] as int } else { 0 }
    }
    // Digits: Digit0(48)..Digit9(57)
    else if has_digit_code_shape(code) {
        if is_ascii_digit(code[5]) { code[5] as int } else { 0 }
    }
    else { 0 }
}

/// Maps a DOM KeyboardEvent.code value to a Windows virtual key code.
///
/// Covers editing/whitespace, navigation, modifiers, function keys,
/// punctuation, letters (KeyA..KeyZ), and digits (Digit0..Digit9).
/// Returns 0 for unrecognized codes.
pub fn code_to_virtual_key_code(code: &str) -> (vk: i32)
    ensures
        vk == virtual_key_code(code@),
        0 <= vk <= 255,
{
    let n = code.unicode_len();
    // Editing & whitespace
    if same_text(code, n, "Backspace") { 8 }
    else if same_text(code, n, "Tab") { 9 }
    else if same_text(code, n, "Enter") || same_text(code, n, "NumpadEnter") { 13 }
    else if same_text(code, n, "Escape") { 27 }
    else if same_text(code, n, "Space") { 32 }
    else if same_text(code, n, "Delete") { 46 }
    // Navigation
    else if same_text(code, n, "ArrowLeft") { 37 }
    else if same_text(code, n, "ArrowUp") { 38 }
    else if same_text(code, n, "ArrowRight") { 39 }
    else if same_text(code, n, "ArrowDown") { 40 }
    else if same_text(code, n, "Home") { 36 }
    else if same_text(code, n, "End") { 35 }
    else if same_text(code, n, "PageUp") { 33 }
    else if same_text(code, n, "PageDown") { 34 }
    else if same_text(code, n, "Insert") { 45 }
    // Modifiers
    else if same_text(code, n, "ShiftLeft") || same_text(code, n, "ShiftRight") { 16 }
    else if same_text(code, n, "ControlLeft") || same_text(code, n, "ControlRight") { 17 }
    else if same_text(code, n, "AltLeft") || same_text(code, n, "AltRight") { 18 }
    else if same_text(code, n, "MetaLeft") { 91 }
    else if same_text(code, n, "MetaRight") { 93 }
    else if same_text(code, n, "CapsLock") { 20 }
    else if same_text(code, n, "NumLock") { 144 }
    else if same_text(code, n, "ScrollLock") { 145 }
    // Function keys
    else if same_text(code, n, "F1") { 112 }
    else if same_text(code, n, "F2") { 113 }
    else if same_text(code, n, "F3") { 114 }
    else if same_text(code, n, "F4") { 115 }
    else if same_text(code, n, "F5") { 116 }
    else if same_text(code, n, "F6") { 117 }
    else if same_text(code, n, "F7") { 118 }
    else if same_text(code, n, "F8") { 119 }
    else if same_text(code, n, "F9") { 120 }
    else if same_text(code, n, "F10") { 121 }
    else if same_text(code, n, "F11") { 122 }
    else if same_text(code, n, "F12") { 123 }
    // Punctuation
    else if same_text(code, n, "Minus") { 189 }
    else if same_text(code, n, "Equal") { 187 }
    else if same_text(code, n, "BracketLeft") { 219 }
    else if same_text(code, n, "BracketRight") { 221 }
    else if same_text(code, n, "Backslash") { 220 }
    else if same_text(code, n, "Semicolon") { 186 }
    else if same_text(code, n, "Quote") { 222 }
    else if same_text(code, n, "Comma") { 188 }
    else if same_text(code, n, "Period") { 190 }
    else if same_text(code, n, "Slash") { 191 }
    else if same_text(code, n, "Backquote") { 192 }
    // Letters: KeyA(65)..KeyZ(90)
    else if n == 4 && code.get_char(0) == 'K' && code.get_char(1) == 'e' && code.get_char(2) == 'y' {
        let ch = code.get_char(3);
        if 'A' <= ch && ch <= 'Z' { ch as u32 as i32 } else { 0 }
    }
    // Digits: Digit0(48)..Digit9(57)
    else if n == 6 && code.get_char(0) == 'D' && code.get_char(1) == 'i' && code.get_char(2) == 'g'
        && code.get_char(3) == 'i' && code.get_char(4) == 't' {
        let ch = code.get_char(5);
        if '0' <= ch && ch <= '9' { ch as u32 as i32 } else { 0 }
    }
    else { 0 }
}

} // verus!

verus! {

/// Whether `c` is an ASCII lower-case letter.
pub open spec fn is_ascii_lower(c: char) -> bool {
    'a' <= c <= 'z'
}

/// Whether `c` is an ASCII letter.
pub open spec fn is_ascii_alpha(c: char) -> bool {
    is_ascii_upper(c) || is_ascii_lower(c)
}

/// The upper-case form of an ASCII letter; any other character is kept.
pub open spec fn ascii_upper(c: char) -> char {
    if is_ascii_lower(c) { ((c as u32) - 32) as char } else { c }
}

/// The DOM `code` reported for a typed character that is not a whitespace
/// key: `Key` and the upper-case letter for a letter, `Digit` and the digit
/// for a digit, empty otherwise.
pub open spec fn typed_char_code(c: char) -> Seq<char> {
    if is_ascii_alpha(c) {
        "Key"@ + seq![ascii_upper(c)]
    } else if is_ascii_digit(c) {
        "Digit"@ + seq![c]
    } else {
        Seq::empty()
    }
}

/// The (key, code, key code) triple sent when the character `c` is typed.
pub open spec fn char_key(c: char) -> (Seq<char>, Seq<char>, int) {
    if c == '\n' || c == '\r' {
        ("Enter"@, "Enter"@, 13)
    } else if c == '\t' {
        ("Tab"@, "Tab"@, 9)
    } else if c == ' ' {
        (" "@, "Space"@, 32)
    } else {
        (seq![c], typed_char_code(c), c as int)
    }
}

/// The view of a (key, code, key code) triple.
pub open spec fn key_triple(info: (String, String, i32)) -> (Seq<char>, Seq<char>, int) {
    (info.0@, info.1@, info.2 as int)
}

/// Returns the DOM key, DOM code and virtual key code sent for a typed
/// character.
pub fn char_to_key_info(ch: char) -> (info: (String, String, i32))
    ensures
        key_triple(info) == char_key(ch),
{
    if ch == '\n' || ch == '\r' {
        (String::from_str("Enter"), String::from_str("Enter"), 13)
    } else if ch == '\t' {
        (String::from_str("Tab"), String::from_str("Tab"), 9)
    } else if ch == ' ' {
        (String::from_str(" "), String::from_str("Space"), 32)
    } else {
        let key = char_to_string(ch);
        let code = if ('A' <= ch && ch <= 'Z') || ('a' <= ch && ch <= 'z') {
            let upper = if 'a' <= ch && ch <= 'z' {
                ((ch as u32 - 32) as u8) as char
            } else {
                ch
            };
            let mut code = String::from_str("Key");
            code.append(char_to_string(upper).as_str());
            code
        } else if '0' <= ch && ch <= '9' {
            let mut code = String::from_str("Digit");
            code.append(char_to_string(ch).as_str());
            code
        } else {
            String::new()
        };
        (key, code, ch as u32 as i32)
    }
}

} // verus!

verus! {

/// The (key, code, key code) triple of a named key, given the key name in
/// lower case; `None` where the name is not one of the named keys.
pub open spec fn named_key_entry(lowered: Seq<char>) -> Option<(Seq<char>, Seq<char>, int)> {
    if lowered == "enter"@ || lowered == "return"@ {
        Some(("Enter"@, "Enter"@, 13))
    } else if lowered == "tab"@ {
        Some(("Tab"@, "Tab"@, 9))
    } else if lowered == "escape"@ || lowered == "esc"@ {
        Some(("Escape"@, "Escape"@, 27))
    } else if lowered == "backspace"@ {
        Some(("Backspace"@, "Backspace"@, 8))
    } else if lowered == "delete"@ {
        Some(("Delete"@, "Delete"@, 46))
    } else if lowered == "arrowup"@ || lowered == "up"@ {
        Some(("ArrowUp"@, "ArrowUp"@, 38))
    } else if lowered == "arrowdown"@ || lowered == "down"@ {
        Some(("ArrowDown"@, "ArrowDown"@, 40))
    } else if lowered == "arrowleft"@ || lowered == "left"@ {
        Some(("ArrowLeft"@, "ArrowLeft"@, 37))
    } else if lowered == "arrowright"@ || lowered == "right"@ {
        Some(("ArrowRight"@, "ArrowRight"@, 39))
    } else if lowered == "home"@ {
        Some(("Home"@, "Home"@, 36))
    } else if lowered == "end"@ {
        Some(("End"@, "End"@, 35))
    } else if lowered == "pageup"@ {
        Some(("PageUp"@, "PageUp"@, 33))
    } else if lowered == "pagedown"@ {
        Some(("PageDown"@, "PageDown"@, 34))
    } else if lowered == "space"@ || lowered == " "@ {
        Some((" "@, "Space"@, 32))
    } else {
        None
    }
}

/// The (key, code, key code) triple sent for the key name `key`, whose
/// lower-case form is `lowered`: a named key by its lower-case name; else a
/// name that is one ASCII character as that character is typed; else the
/// name itself as key and code, with key code 0.
pub open spec fn named_key(key: Seq<char>, lowered: Seq<char>) -> (Seq<char>, Seq<char>, int) {
    match named_key_entry(lowered) {
        Some(entry) => entry,
        None => if key.len() == 1 && is_ascii_char(key[0]) {
            char_key(key[0])
        } else {
            (key, key, 0)
        },
    }
}

/// A (key, code, key code) triple of three owned strings from literals.
fn named_triple(key: &str, code: &str, key_code: i32) -> (info: (String, String, i32))
    ensures
        key_triple(info) == (key@, code@, key_code as int),
{
    (String::from_str(key), String::from_str(code), key_code)
}

/// Returns the key, code and key code sent for the key name `key` whose
/// lower-case form `lowered` the caller has computed.
pub fn named_key_info_lowered(key: &str, lowered: &str) -> (info: (String, String, i32))
    ensures
        key_triple(info) == named_key(key@, lowered@),
        0 <= info.2 <= 127,
{
    let n = lowered.unicode_len();
    if same_text(lowered, n, "enter") || same_text(lowered, n, "return") {
        named_triple("Enter", "Enter", 13)
    } else if same_text(lowered, n, "tab") {
        named_triple("Tab", "Tab", 9)
    } else if same_text(lowered, n, "escape") || same_text(lowered, n, "esc") {
        named_triple("Escape", "Escape", 27)
    } else if same_text(lowered, n, "backspace") {
        named_triple("Backspace", "Backspace", 8)
    } else if same_text(lowered, n, "delete") {
        named_triple("Delete", "Delete", 46)
    } else if same_text(lowered, n, "arrowup") || same_text(lowered, n, "up") {
        named_triple("ArrowUp", "ArrowUp", 38)
    } else if same_text(lowered, n, "arrowdown") || same_text(lowered, n, "down") {
        named_triple("ArrowDown", "ArrowDown", 40)
    } else if same_text(lowered, n, "arrowleft") || same_text(lowered, n, "left") {
        named_triple("ArrowLeft", "ArrowLeft", 37)
    } else if same_text(lowered, n, "arrowright") || same_text(lowered, n, "right") {
        named_triple("ArrowRight", "ArrowRight", 39)
    } else if same_text(lowered, n, "home") {
        named_triple("Home", "Home", 36)
    } else if same_text(lowered, n, "end") {
        named_triple("End", "End", 35)
    } else if same_text(lowered, n, "pageup") {
        named_triple("PageUp", "PageUp", 33)
    } else if same_text(lowered, n, "pagedown") {
        named_triple("PageDown", "PageDown", 34)
    } else if same_text(lowered, n, "space") || same_text(lowered, n, " ") {
        named_triple(" ", "Space", 32)
    } else {
        let key_len = key.unicode_len();
        if key_len == 1 && key.get_char(0) <= '\x7f' {
            char_to_key_info(key.get_char(0))
        } else {
            (String::from_str(key), String::from_str(key), 0)
        }
    }
}

/// Returns the key, code and key code sent for a key name such as "Enter",
/// "esc", "ArrowUp" or "a". Names are matched without regard to case.
pub fn named_key_info(key: &str) -> (info: (String, String, i32))
    ensures
        key_triple(info) == named_key(key@, lowercase(key@)),
        is_ascii_text(key@) ==> key_triple(info) == named_key(key@, ascii_lowercase(key@)),
        0 <= info.2 <= 127,
{
    let lowered = to_lowercase_string(key);
    named_key_info_lowered(key, lowered.as_str())
}

} // verus!
