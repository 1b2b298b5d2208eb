//! Properties that hold across the keyboard tables and the interaction plans.
use vstd::prelude::*;

use crate::actions::{key_press_plan, KeyEventView, fill_plan, type_text_plan, typed_char_actions, typed_text_actions, ActionView, ElementFunction};
use crate::mouse::{button_mask, click_plan, mouse_moved, needs_click};
use crate::text::{ascii_lower, ascii_lowercase, is_ascii_char, is_ascii_text};
use crate::keys::{
    char_key, typed_char_code, has_digit_code_shape, has_letter_code_shape, is_ascii_digit, is_ascii_upper,
    named_key, named_key_entry, virtual_key_code,
};

verus! {

/// A code of the shape `Key?` or `Digit?` is none of the named codes of the
/// table, so it maps by its last character.
proof fn shaped_code_maps_by_last_char(code: Seq<char>)
    requires
        has_letter_code_shape(code) || has_digit_code_shape(code),
    ensures
        has_letter_code_shape(code) ==> virtual_key_code(code) == (if is_ascii_upper(code[3]) {
            code[3] as int
        } else {
            0
        }),
        has_digit_code_shape(code) ==> virtual_key_code(code) == (if is_ascii_digit(code[5]) {
            code[5] as int
        } else {
            0
        }),
{
    broadcast use vstd::string::group_string_axioms;

    reveal_strlit("Backspace");
    reveal_strlit("Tab");
    reveal_strlit("Enter");
    reveal_strlit("NumpadEnter");
    reveal_strlit("Escape");
    reveal_strlit("Space");
    reveal_strlit("Delete");
    reveal_strlit("ArrowLeft");
    reveal_strlit("ArrowUp");
    reveal_strlit("ArrowRight");
    reveal_strlit("ArrowDown");
    reveal_strlit("Home");
    reveal_strlit("End");
    reveal_strlit("PageUp");
    reveal_strlit("PageDown");
    reveal_strlit("Insert");
    reveal_strlit("ShiftLeft");
    reveal_strlit("ShiftRight");
    reveal_strlit("ControlLeft");
    reveal_strlit("ControlRight");
    reveal_strlit("AltLeft");
    reveal_strlit("AltRight");
    reveal_strlit("MetaLeft");
    reveal_strlit("MetaRight");
    reveal_strlit("CapsLock");
    reveal_strlit("NumLock");
    reveal_strlit("ScrollLock");
    reveal_strlit("F1");
    reveal_strlit("F2");
    reveal_strlit("F3");
    reveal_strlit("F4");
    reveal_strlit("F5");
    reveal_strlit("F6");
    reveal_strlit("F7");
    reveal_strlit("F8");
    reveal_strlit("F9");
    reveal_strlit("F10");
    reveal_strlit("F11");
    reveal_strlit("F12");
    reveal_strlit("Minus");
    reveal_strlit("Equal");
    reveal_strlit("BracketLeft");
    reveal_strlit("BracketRight");
    reveal_strlit("Backslash");
    reveal_strlit("Semicolon");
    reveal_strlit("Quote");
    reveal_strlit("Comma");
    reveal_strlit("Period");
    reveal_strlit("Slash");
    reveal_strlit("Backquote");
}

/// The code `Key` followed by an upper-case ASCII letter maps to that
/// letter's ASCII value (KeyA is 65, KeyZ is 90).
pub proof fn letter_code_is_ascii_value(c: char)
    requires
        is_ascii_upper(c),
    ensures
        virtual_key_code("Key"@ + seq![c]) == c as int,
{
    reveal_strlit("Key");
    let code = "Key"@ + seq![c];
    assert(code[0] == 'K' && code[1] == 'e' && code[2] == 'y' && code[3] == c);
    shaped_code_maps_by_last_char(code);
}

/// The code `Digit` followed by an ASCII digit maps to that digit's ASCII
/// value (Digit0 is 48, Digit9 is 57).
pub proof fn digit_code_is_ascii_value(c: char)
    requires
        is_ascii_digit(c),
    ensures
        virtual_key_code("Digit"@ + seq![c]) == c as int,
{
    reveal_strlit("Digit");
    let code = "Digit"@ + seq![c];
    assert(code[0] == 'D' && code[1] == 'i' && code[2] == 'g' && code[3] == 'i' && code[4] == 't');
    assert(code[5] == c);
    shaped_code_maps_by_last_char(code);
}

/// The characters whose typed key code is the code their DOM code maps to:
/// upper-case letters, digits, and the Enter, Tab and Space characters.
pub open spec fn has_consistent_key_code(c: char) -> bool {
    is_ascii_upper(c) || is_ascii_digit(c) || c == '\n' || c == '\r' || c == '\t' || c == ' '
}

/// The table of named codes, entry by entry.
pub proof fn virtual_key_code_table()
    ensures
        virtual_key_code("Backspace"@) == 8,
        virtual_key_code("Tab"@) == 9,
        virtual_key_code("Enter"@) == 13,
        virtual_key_code("NumpadEnter"@) == 13,
        virtual_key_code("Escape"@) == 27,
        virtual_key_code("Space"@) == 32,
        virtual_key_code("Delete"@) == 46,
        virtual_key_code("ArrowLeft"@) == 37,
        virtual_key_code("ArrowUp"@) == 38,
        virtual_key_code("ArrowRight"@) == 39,
        virtual_key_code("ArrowDown"@) == 40,
        virtual_key_code("Home"@) == 36,
        virtual_key_code("End"@) == 35,
        virtual_key_code("PageUp"@) == 33,
        virtual_key_code("PageDown"@) == 34,
        virtual_key_code("Insert"@) == 45,
        virtual_key_code("ShiftLeft"@) == 16,
        virtual_key_code("ShiftRight"@) == 16,
        virtual_key_code("ControlLeft"@) == 17,
        virtual_key_code("ControlRight"@) == 17,
        virtual_key_code("AltLeft"@) == 18,
        virtual_key_code("AltRight"@) == 18,
        virtual_key_code("MetaLeft"@) == 91,
        virtual_key_code("MetaRight"@) == 93,
        virtual_key_code("CapsLock"@) == 20,
        virtual_key_code("NumLock"@) == 144,
        virtual_key_code("ScrollLock"@) == 145,
        virtual_key_code("F1"@) == 112,
        virtual_key_code("F2"@) == 113,
        virtual_key_code("F3"@) == 114,
        virtual_key_code("F4"@) == 115,
        virtual_key_code("F5"@) == 116,
        virtual_key_code("F6"@) == 117,
        virtual_key_code("F7"@) == 118,
        virtual_key_code("F8"@) == 119,
        virtual_key_code("F9"@) == 120,
        virtual_key_code("F10"@) == 121,
        virtual_key_code("F11"@) == 122,
        virtual_key_code("F12"@) == 123,
        virtual_key_code("Minus"@) == 189,
        virtual_key_code("Equal"@) == 187,
        virtual_key_code("BracketLeft"@) == 219,
        virtual_key_code("BracketRight"@) == 221,
        virtual_key_code("Backslash"@) == 220,
        virtual_key_code("Semicolon"@) == 186,
        virtual_key_code("Quote"@) == 222,
        virtual_key_code("Comma"@) == 188,
        virtual_key_code("Period"@) == 190,
        virtual_key_code("Slash"@) == 191,
        virtual_key_code("Backquote"@) == 192,
{
    broadcast use vstd::string::group_string_axioms;

    reveal_strlit("Backspace");
    reveal_strlit("Tab");
    reveal_strlit("Enter");
    reveal_strlit("NumpadEnter");
    reveal_strlit("Escape");
    reveal_strlit("Space");
    reveal_strlit("Delete");
    reveal_strlit("ArrowLeft");
    reveal_strlit("ArrowUp");
    reveal_strlit("ArrowRight");
    reveal_strlit("ArrowDown");
    reveal_strlit("Home");
    reveal_strlit("End");
    reveal_strlit("PageUp");
    reveal_strlit("PageDown");
    reveal_strlit("Insert");
    reveal_strlit("ShiftLeft");
    reveal_strlit("ShiftRight");
    reveal_strlit("ControlLeft");
    reveal_strlit("ControlRight");
    reveal_strlit("AltLeft");
    reveal_strlit("AltRight");
    reveal_strlit("MetaLeft");
    reveal_strlit("MetaRight");
    reveal_strlit("CapsLock");
    reveal_strlit("NumLock");
    reveal_strlit("ScrollLock");
    reveal_strlit("F1");
    reveal_strlit("F2");
    reveal_strlit("F3");
    reveal_strlit("F4");
    reveal_strlit("F5");
    reveal_strlit("F6");
    reveal_strlit("F7");
    reveal_strlit("F8");
    reveal_strlit("F9");
    reveal_strlit("F10");
    reveal_strlit("F11");
    reveal_strlit("F12");
    reveal_strlit("Minus");
    reveal_strlit("Equal");
    reveal_strlit("BracketLeft");
    reveal_strlit("BracketRight");
    reveal_strlit("Backslash");
    reveal_strlit("Semicolon");
    reveal_strlit("Quote");
    reveal_strlit("Comma");
    reveal_strlit("Period");
    reveal_strlit("Slash");
    reveal_strlit("Backquote");
    assert("Backspace"@.len() == 9 && "Backspace"@[0] == 'B');
    assert("Tab"@.len() == 3 && "Tab"@[0] == 'T');
    assert("Enter"@.len() == 5 && "Enter"@[0] == 'E');
    assert("NumpadEnter"@.len() == 11 && "NumpadEnter"@[0] == 'N');
    assert("Escape"@.len() == 6 && "Escape"@[0] == 'E');
    assert("Space"@.len() == 5 && "Space"@[0] == 'S');
    assert("Delete"@.len() == 6 && "Delete"@[0] == 'D');
    assert("ArrowLeft"@.len() == 9 && "ArrowLeft"@[0] == 'A');
    assert("ArrowUp"@.len() == 7 && "ArrowUp"@[0] == 'A');
    assert("ArrowRight"@.len() == 10 && "ArrowRight"@[0] == 'A');
    assert("ArrowDown"@.len() == 9 && "ArrowDown"@[0] == 'A');
    assert("Home"@.len() == 4 && "Home"@[0] == 'H');
    assert("End"@.len() == 3 && "End"@[0] == 'E');
    assert("PageUp"@.len() == 6 && "PageUp"@[0] == 'P');
    assert("PageDown"@.len() == 8 && "PageDown"@[0] == 'P');
    assert("Insert"@.len() == 6 && "Insert"@[0] == 'I');
    assert("ShiftLeft"@.len() == 9 && "ShiftLeft"@[0] == 'S');
    assert("ShiftRight"@.len() == 10 && "ShiftRight"@[0] == 'S');
    assert("ControlLeft"@.len() == 11 && "ControlLeft"@[0] == 'C');
    assert("ControlRight"@.len() == 12 && "ControlRight"@[0] == 'C');
    assert("AltLeft"@.len() == 7 && "AltLeft"@[0] == 'A');
    assert("AltRight"@.len() == 8 && "AltRight"@[0] == 'A');
    assert("MetaLeft"@.len() == 8 && "MetaLeft"@[0] == 'M');
    assert("MetaRight"@.len() == 9 && "MetaRight"@[0] == 'M');
    assert("CapsLock"@.len() == 8 && "CapsLock"@[0] == 'C');
    assert("NumLock"@.len() == 7 && "NumLock"@[0] == 'N');
    assert("ScrollLock"@.len() == 10 && "ScrollLock"@[0] == 'S');
    assert("F1"@.len() == 2 && "F1"@[0] == 'F');
    assert("F2"@.len() == 2 && "F2"@[0] == 'F');
    assert("F3"@.len() == 2 && "F3"@[0] == 'F');
    assert("F4"@.len() == 2 && "F4"@[0] == 'F');
    assert("F5"@.len() == 2 && "F5"@[0] == 'F');
    assert("F6"@.len() == 2 && "F6"@[0] == 'F');
    assert("F7"@.len() == 2 && "F7"@[0] == 'F');
    assert("F8"@.len() == 2 && "F8"@[0] == 'F');
    assert("F9"@.len() == 2 && "F9"@[0] == 'F');
    assert("F10"@.len() == 3 && "F10"@[0] == 'F');
    assert("F11"@.len() == 3 && "F11"@[0] == 'F');
    assert("F12"@.len() == 3 && "F12"@[0] == 'F');
    assert("Minus"@.len() == 5 && "Minus"@[0] == 'M');
    assert("Equal"@.len() == 5 && "Equal"@[0] == 'E');
    assert("BracketLeft"@.len() == 11 && "BracketLeft"@[0] == 'B');
    assert("BracketRight"@.len() == 12 && "BracketRight"@[0] == 'B');
    assert("Backslash"@.len() == 9 && "Backslash"@[0] == 'B');
    assert("Semicolon"@.len() == 9 && "Semicolon"@[0] == 'S');
    assert("Quote"@.len() == 5 && "Quote"@[0] == 'Q');
    assert("Comma"@.len() == 5 && "Comma"@[0] == 'C');
    assert("Period"@.len() == 6 && "Period"@[0] == 'P');
    assert("Slash"@.len() == 5 && "Slash"@[0] == 'S');
    assert("Backquote"@.len() == 9 && "Backquote"@[0] == 'B');
    assert("ArrowDown"@[5] != "ArrowLeft"@[5]);
    assert("AltLeft"@[1] != "ArrowUp"@[1]);
    assert("ScrollLock"@[1] != "ShiftRight"@[1]);
    assert("F2"@[1] != "F1"@[1]);
    assert("F3"@[1] != "F1"@[1]);
    assert("F3"@[1] != "F2"@[1]);
    assert("F4"@[1] != "F1"@[1]);
    assert("F4"@[1] != "F2"@[1]);
    assert("F4"@[1] != "F3"@[1]);
    assert("F5"@[1] != "F1"@[1]);
    assert("F5"@[1] != "F2"@[1]);
    assert("F5"@[1] != "F3"@[1]);
    assert("F5"@[1] != "F4"@[1]);
    assert("F6"@[1] != "F1"@[1]);
    assert("F6"@[1] != "F2"@[1]);
    assert("F6"@[1] != "F3"@[1]);
    assert("F6"@[1] != "F4"@[1]);
    assert("F6"@[1] != "F5"@[1]);
    assert("F7"@[1] != "F1"@[1]);
    assert("F7"@[1] != "F2"@[1]);
    assert("F7"@[1] != "F3"@[1]);
    assert("F7"@[1] != "F4"@[1]);
    assert("F7"@[1] != "F5"@[1]);
    assert("F7"@[1] != "F6"@[1]);
    assert("F8"@[1] != "F1"@[1]);
    assert("F8"@[1] != "F2"@[1]);
    assert("F8"@[1] != "F3"@[1]);
    assert("F8"@[1] != "F4"@[1]);
    assert("F8"@[1] != "F5"@[1]);
    assert("F8"@[1] != "F6"@[1]);
    assert("F8"@[1] != "F7"@[1]);
    assert("F9"@[1] != "F1"@[1]);
    assert("F9"@[1] != "F2"@[1]);
    assert("F9"@[1] != "F3"@[1]);
    assert("F9"@[1] != "F4"@[1]);
    assert("F9"@[1] != "F5"@[1]);
    assert("F9"@[1] != "F6"@[1]);
    assert("F9"@[1] != "F7"@[1]);
    assert("F9"@[1] != "F8"@[1]);
    assert("F11"@[2] != "F10"@[2]);
    assert("F12"@[2] != "F10"@[2]);
    assert("F12"@[2] != "F11"@[2]);
    assert("Equal"@[1] != "Enter"@[1]);
    assert("Backslash"@[5] != "Backspace"@[5]);
    assert("Semicolon"@[1] != "ShiftLeft"@[1]);
    assert("Period"@[1] != "PageUp"@[1]);
    assert("Slash"@[1] != "Space"@[1]);
    assert("Backquote"@[4] != "Backspace"@[4]);
    assert("Backquote"@[4] != "Backslash"@[4]);
}

/// When a character is typed, the key code sent with it is the one its DOM
/// code maps to, for upper-case letters, digits, and the Enter, Tab and
/// Space characters.
pub proof fn typed_key_code_matches_code(c: char)
    requires
        has_consistent_key_code(c),
    ensures
        virtual_key_code(char_key(c).1) == char_key(c).2,
{
    virtual_key_code_table();
    if is_ascii_upper(c) {
        letter_code_is_ascii_value(c);
    } else if is_ascii_digit(c) {
        digit_code_is_ascii_value(c);
    }
}

/// When a key is pressed by name, the key code sent with it is the one its
/// DOM code maps to, for every named key and for every one-character name
/// whose character has a consistent key code.
pub proof fn pressed_key_code_matches_code(key: Seq<char>, lowered: Seq<char>)
    requires
        named_key_entry(lowered) is Some || (key.len() == 1 && has_consistent_key_code(key[0])),
    ensures
        virtual_key_code(named_key(key, lowered).1) == named_key(key, lowered).2,
{
    virtual_key_code_table();
    if named_key_entry(lowered) is None {
        typed_key_code_matches_code(key[0]);
    }
}

/// Every name of a named key is lower-case ASCII, so lowering it again
/// keeps it as it is.
proof fn key_names_are_lower_case_ascii(lowered: Seq<char>)
    requires
        named_key_entry(lowered) is Some,
    ensures
        is_ascii_text(lowered),
        ascii_lowercase(lowered) == lowered,
{
    broadcast use vstd::string::group_string_axioms;

    reveal_strlit("enter");
    reveal_strlit("return");
    reveal_strlit("tab");
    reveal_strlit("escape");
    reveal_strlit("esc");
    reveal_strlit("backspace");
    reveal_strlit("delete");
    reveal_strlit("arrowup");
    reveal_strlit("up");
    reveal_strlit("arrowdown");
    reveal_strlit("down");
    reveal_strlit("arrowleft");
    reveal_strlit("left");
    reveal_strlit("arrowright");
    reveal_strlit("right");
    reveal_strlit("home");
    reveal_strlit("end");
    reveal_strlit("pageup");
    reveal_strlit("pagedown");
    reveal_strlit("space");
    reveal_strlit(" ");
    assert(ascii_lowercase(lowered) =~= lowered);
}

/// Key names are matched without regard to case: where the lower-case form
/// `lowered` of a name is a named key, that form is ASCII, and pressing the
/// name sends what pressing its lower-case form sends.
pub proof fn named_keys_ignore_case(key: Seq<char>, lowered: Seq<char>)
    requires
        named_key_entry(lowered) is Some,
    ensures
        is_ascii_text(lowered),
        named_key(key, lowered) == named_key(lowered, ascii_lowercase(lowered)),
{
    key_names_are_lower_case_ascii(lowered);
}

/// A key name of one ASCII character other than a space is pressed as that
/// character is typed.
pub proof fn one_character_name_is_typed_character(key: Seq<char>)
    requires
        key.len() == 1,
        is_ascii_char(key[0]),
        key[0] != ' ',
    ensures
        named_key(key, ascii_lowercase(key)) == char_key(key[0]),
{
    broadcast use vstd::string::group_string_axioms;

    reveal_strlit("enter");
    reveal_strlit("return");
    reveal_strlit("tab");
    reveal_strlit("escape");
    reveal_strlit("esc");
    reveal_strlit("backspace");
    reveal_strlit("delete");
    reveal_strlit("arrowup");
    reveal_strlit("up");
    reveal_strlit("arrowdown");
    reveal_strlit("down");
    reveal_strlit("arrowleft");
    reveal_strlit("left");
    reveal_strlit("arrowright");
    reveal_strlit("right");
    reveal_strlit("home");
    reveal_strlit("end");
    reveal_strlit("pageup");
    reveal_strlit("pagedown");
    reveal_strlit("space");
    reveal_strlit(" ");
    let lowered = ascii_lowercase(key);
    assert(lowered.len() == 1);
    assert(lowered[0] == ascii_lower(key[0]));
    assert(lowered[0] != ' ');
    assert(" "@[0] == ' ');
    assert(lowered != " "@);
}

/// The number of steps sent per typed character: `keyDown`, `keyUp`, and a
/// pause where the delay is above 0.
pub open spec fn steps_per_char(delay_ms: u64) -> int {
    if delay_ms > 0 { 3 } else { 2 }
}

/// The steps of the `i`-th typed character stand at `steps * i` in the
/// events of typing `text`, which has `steps` events per character.
proof fn typed_text_layout(text: Seq<char>, delay_ms: u64, i: int)
    requires
        0 <= i < text.len(),
    ensures
        typed_text_actions(text, delay_ms).len() == steps_per_char(delay_ms) * text.len(),
        typed_text_actions(text, delay_ms).subrange(
            steps_per_char(delay_ms) * i,
            steps_per_char(delay_ms) * i + steps_per_char(delay_ms),
        ) == typed_char_actions(text[i], delay_ms),
    decreases text.len(),
{
    let k = steps_per_char(delay_ms);
    let n = text.len();
    let prefix = text.drop_last();
    let all = typed_text_actions(text, delay_ms);
    let head = typed_text_actions(prefix, delay_ms);
    let tail = typed_char_actions(text.last(), delay_ms);
    assert(all == head + tail);
    assert(tail.len() == k);
    if n == 1 {
        assert(prefix.len() == 0);
        assert(head.len() == 0);
        assert(all =~= tail);
        assert(all.subrange(0, k) =~= tail);
    } else if i < n - 1 {
        typed_text_layout(prefix, delay_ms, i);
        assert(head.len() == k * (n - 1));
        assert(k * i + k <= k * (n - 1)) by (nonlinear_arith)
            requires
                0 <= i < n - 1,
                k >= 2,
        ;
        assert(all.subrange(k * i, k * i + k) =~= head.subrange(k * i, k * i + k));
        assert(prefix[i] == text[i]);
    } else {
        typed_text_layout(prefix, delay_ms, 0);
        assert(head.len() == k * (n - 1));
        assert(k * i + k == k * n) by (nonlinear_arith)
            requires
                i == n - 1,
        ;
        assert(all.subrange(k * i, k * i + k) =~= tail);
    }
    assert(k * n == k * (n - 1) + k) by (nonlinear_arith);
}

/// Typing text into an element focuses it, clears it where asked, then sends
/// for each character, in order, its `keyDown` (carrying the character),
/// its `keyUp` and, where the delay is above 0, a pause; nothing else.
pub proof fn type_text_sends_each_char_in_order(text: Seq<char>, clear: bool, delay_ms: Option<u64>, i: int)
    requires
        0 <= i < text.len(),
    ensures
        ({
            let plan = type_text_plan(text, clear, delay_ms);
            let delay: u64 = match delay_ms {
                Some(d) => d,
                None => 0,
            };
            let first = if clear { 2int } else { 1int };
            let k = steps_per_char(delay);
            &&& plan[0] == ActionView::CallFunction(ElementFunction::Focus)
            &&& clear ==> plan[1] == ActionView::CallFunction(ElementFunction::ClearForTyping)
            &&& plan.len() == first + k * text.len()
            &&& plan.subrange(first + k * i, first + k * i + k) == typed_char_actions(text[i], delay)
        }),
{
    let plan = type_text_plan(text, clear, delay_ms);
    let delay: u64 = match delay_ms {
        Some(d) => d,
        None => 0,
    };
    let first = if clear { 2int } else { 1int };
    let k = steps_per_char(delay);
    let head = seq![ActionView::CallFunction(ElementFunction::Focus)] + (if clear {
        seq![ActionView::CallFunction(ElementFunction::ClearForTyping)]
    } else {
        Seq::empty()
    });
    let typed = typed_text_actions(text, delay);
    assert(plan == head + typed);
    assert(head.len() == first);
    typed_text_layout(text, delay, i);
    assert(k * i + k <= k * text.len()) by (nonlinear_arith)
        requires
            0 <= i < text.len(),
            k >= 2,
    ;
    assert(k * i >= 0) by (nonlinear_arith)
        requires
            0 <= i,
            k >= 2,
    ;
    assert(plan.subrange(first + k * i, first + k * i + k) =~= typed.subrange(k * i, k * i + k));
}

/// Checking a box leaves it checked and unchecking leaves it unchecked,
/// where a click flips its state: the click is sent exactly when the state
/// differs from the one wanted.
pub proof fn check_reaches_wanted_state(is_checked: bool, want_checked: bool)
    ensures
        (if needs_click(is_checked, want_checked) { !is_checked } else { is_checked }) == want_checked,
        !needs_click(want_checked, want_checked),
{
}

/// Typing a text in two pieces sends the same key events as typing it
/// whole: the events of `first + second` are those of `first` followed by
/// those of `second`.
pub proof fn typing_in_pieces_sends_the_same_events(first: Seq<char>, second: Seq<char>, delay_ms: u64)
    ensures
        typed_text_actions(first + second, delay_ms) == typed_text_actions(first, delay_ms)
            + typed_text_actions(second, delay_ms),
    decreases second.len(),
{
    if second.len() == 0 {
        assert(first + second =~= first);
        assert(typed_text_actions(first, delay_ms) + typed_text_actions(second, delay_ms)
            =~= typed_text_actions(first, delay_ms));
    } else {
        let whole = first + second;
        assert(whole.drop_last() =~= first + second.drop_last());
        assert(whole.last() == second.last());
        typing_in_pieces_sends_the_same_events(first, second.drop_last(), delay_ms);
        assert(typed_text_actions(whole, delay_ms) =~= typed_text_actions(first, delay_ms)
            + typed_text_actions(second, delay_ms));
    }
}

/// The named-key table, alias by alias: every name whose lower-case form is
/// one of these aliases presses the key given here, whatever the name's own
/// spelling.
pub proof fn named_key_table(key: Seq<char>)
    ensures
        named_key(key, "enter"@) == ("Enter"@, "Enter"@, 13int),
        named_key(key, "return"@) == ("Enter"@, "Enter"@, 13int),
        named_key(key, "tab"@) == ("Tab"@, "Tab"@, 9int),
        named_key(key, "escape"@) == ("Escape"@, "Escape"@, 27int),
        named_key(key, "esc"@) == ("Escape"@, "Escape"@, 27int),
        named_key(key, "backspace"@) == ("Backspace"@, "Backspace"@, 8int),
        named_key(key, "delete"@) == ("Delete"@, "Delete"@, 46int),
        named_key(key, "arrowup"@) == ("ArrowUp"@, "ArrowUp"@, 38int),
        named_key(key, "up"@) == ("ArrowUp"@, "ArrowUp"@, 38int),
        named_key(key, "arrowdown"@) == ("ArrowDown"@, "ArrowDown"@, 40int),
        named_key(key, "down"@) == ("ArrowDown"@, "ArrowDown"@, 40int),
        named_key(key, "arrowleft"@) == ("ArrowLeft"@, "ArrowLeft"@, 37int),
        named_key(key, "left"@) == ("ArrowLeft"@, "ArrowLeft"@, 37int),
        named_key(key, "arrowright"@) == ("ArrowRight"@, "ArrowRight"@, 39int),
        named_key(key, "right"@) == ("ArrowRight"@, "ArrowRight"@, 39int),
        named_key(key, "home"@) == ("Home"@, "Home"@, 36int),
        named_key(key, "end"@) == ("End"@, "End"@, 35int),
        named_key(key, "pageup"@) == ("PageUp"@, "PageUp"@, 33int),
        named_key(key, "pagedown"@) == ("PageDown"@, "PageDown"@, 34int),
        named_key(key, "space"@) == (" "@, "Space"@, 32int),
        named_key(key, " "@) == (" "@, "Space"@, 32int),
{
    broadcast use vstd::string::group_string_axioms;

    reveal_strlit("enter");
    reveal_strlit("return");
    reveal_strlit("tab");
    reveal_strlit("escape");
    reveal_strlit("esc");
    reveal_strlit("backspace");
    reveal_strlit("delete");
    reveal_strlit("arrowup");
    reveal_strlit("up");
    reveal_strlit("arrowdown");
    reveal_strlit("down");
    reveal_strlit("arrowleft");
    reveal_strlit("left");
    reveal_strlit("arrowright");
    reveal_strlit("right");
    reveal_strlit("home");
    reveal_strlit("end");
    reveal_strlit("pageup");
    reveal_strlit("pagedown");
    reveal_strlit("space");
    reveal_strlit(" ");
    assert("enter"@.len() == 5 && "enter"@[0] == 'e');
    assert("return"@.len() == 6 && "return"@[0] == 'r');
    assert("tab"@.len() == 3 && "tab"@[0] == 't');
    assert("escape"@.len() == 6 && "escape"@[0] == 'e');
    assert("esc"@.len() == 3 && "esc"@[0] == 'e');
    assert("backspace"@.len() == 9 && "backspace"@[0] == 'b');
    assert("delete"@.len() == 6 && "delete"@[0] == 'd');
    assert("arrowup"@.len() == 7 && "arrowup"@[0] == 'a');
    assert("up"@.len() == 2 && "up"@[0] == 'u');
    assert("arrowdown"@.len() == 9 && "arrowdown"@[0] == 'a');
    assert("down"@.len() == 4 && "down"@[0] == 'd');
    assert("arrowleft"@.len() == 9 && "arrowleft"@[0] == 'a');
    assert("left"@.len() == 4 && "left"@[0] == 'l');
    assert("arrowright"@.len() == 10 && "arrowright"@[0] == 'a');
    assert("right"@.len() == 5 && "right"@[0] == 'r');
    assert("home"@.len() == 4 && "home"@[0] == 'h');
    assert("end"@.len() == 3 && "end"@[0] == 'e');
    assert("pageup"@.len() == 6 && "pageup"@[0] == 'p');
    assert("pagedown"@.len() == 8 && "pagedown"@[0] == 'p');
    assert("space"@.len() == 5 && "space"@[0] == 's');
    assert(" "@.len() == 1 && " "@[0] == ' ');
    assert("arrowleft"@[5] != "arrowdown"@[5]);
    assert("end"@[1] != "esc"@[1]);
}

/// The text that a step puts into the page when it is a `keyDown`: its
/// `text`, or nothing.
pub open spec fn key_down_text(a: ActionView) -> Seq<char> {
    match a {
        ActionView::DispatchKey(e) => if e.event_type == "keyDown"@ {
            match e.text {
                Some(t) => t,
                None => Seq::empty(),
            }
        } else {
            Seq::empty()
        },
        _ => Seq::empty(),
    }
}

/// The unmodified text of a step when it is a `keyDown`, or nothing.
pub open spec fn key_down_unmodified_text(a: ActionView) -> Seq<char> {
    match a {
        ActionView::DispatchKey(e) => if e.event_type == "keyDown"@ {
            match e.unmodified_text {
                Some(t) => t,
                None => Seq::empty(),
            }
        } else {
            Seq::empty()
        },
        _ => Seq::empty(),
    }
}

/// The texts of all `keyDown` steps, in order, joined.
pub open spec fn typed_texts(actions: Seq<ActionView>) -> Seq<char>
    decreases actions.len(),
{
    if actions.len() == 0 {
        Seq::empty()
    } else {
        typed_texts(actions.drop_last()) + key_down_text(actions.last())
    }
}

/// The unmodified texts of all `keyDown` steps, in order, joined.
pub open spec fn typed_unmodified_texts(actions: Seq<ActionView>) -> Seq<char>
    decreases actions.len(),
{
    if actions.len() == 0 {
        Seq::empty()
    } else {
        typed_unmodified_texts(actions.drop_last()) + key_down_unmodified_text(actions.last())
    }
}

/// The keyDown texts of two runs of steps, one after the other.
proof fn typed_texts_of_concat(a: Seq<ActionView>, b: Seq<ActionView>)
    ensures
        typed_texts(a + b) == typed_texts(a) + typed_texts(b),
        typed_unmodified_texts(a + b) == typed_unmodified_texts(a) + typed_unmodified_texts(b),
    decreases b.len(),
{
    if b.len() == 0 {
        assert(a + b =~= a);
        assert(typed_texts(a) + typed_texts(b) =~= typed_texts(a));
        assert(typed_unmodified_texts(a) + typed_unmodified_texts(b) =~= typed_unmodified_texts(a));
    } else {
        assert((a + b).drop_last() =~= a + b.drop_last());
        assert((a + b).last() == b.last());
        typed_texts_of_concat(a, b.drop_last());
        assert(typed_texts(a + b) =~= typed_texts(a) + typed_texts(b));
        assert(typed_unmodified_texts(a + b) =~= typed_unmodified_texts(a) + typed_unmodified_texts(b));
    }
}

/// The keyDown texts of the events of typing `text`.
proof fn typed_text_puts_in_its_characters(text: Seq<char>, delay_ms: u64)
    ensures
        typed_texts(typed_text_actions(text, delay_ms)) == text,
        typed_unmodified_texts(typed_text_actions(text, delay_ms)) == text,
    decreases text.len(),
{
    reveal_strlit("keyDown");
    reveal_strlit("keyUp");
    assert("keyDown"@.len() != "keyUp"@.len());
    if text.len() > 0 {
        let front = text.drop_last();
        let c = text.last();
        typed_text_puts_in_its_characters(front, delay_ms);
        let steps = typed_char_actions(c, delay_ms);
        typed_texts_of_concat(typed_text_actions(front, delay_ms), steps);
        let pair = steps.take(2);
        let rest = steps.skip(2);
        assert(steps =~= pair + rest);
        typed_texts_of_concat(pair, rest);
        assert(pair.drop_last() =~= seq![pair[0]]);
        assert(seq![pair[0]].drop_last() =~= Seq::<ActionView>::empty());
        assert(key_down_text(pair[0]) == seq![c]);
        assert(key_down_text(pair[1]) == Seq::<char>::empty());
        assert(key_down_unmodified_text(pair[0]) == seq![c]);
        assert(key_down_unmodified_text(pair[1]) == Seq::<char>::empty());
        reveal_with_fuel(typed_texts, 3);
        reveal_with_fuel(typed_unmodified_texts, 3);
        assert(typed_texts(pair) =~= seq![c]);
        assert(typed_unmodified_texts(pair) =~= seq![c]);
        if delay_ms > 0 {
            assert(rest.drop_last() =~= Seq::<ActionView>::empty());
        }
        assert(typed_texts(rest) =~= Seq::<char>::empty());
        assert(typed_unmodified_texts(rest) =~= Seq::<char>::empty());
        assert(text =~= front + seq![c]);
    }
}

/// Typing puts exactly the given text into the page: the texts (and the
/// unmodified texts) carried by the `keyDown` events of typing `text`,
/// joined in order, are `text` itself, whether or not the element is cleared
/// first and whatever the delay.
pub proof fn type_text_types_exactly_its_text(text: Seq<char>, clear: bool, delay_ms: Option<u64>)
    ensures
        typed_texts(type_text_plan(text, clear, delay_ms)) == text,
        typed_unmodified_texts(type_text_plan(text, clear, delay_ms)) == text,
{
    let delay: u64 = match delay_ms {
        Some(d) => d,
        None => 0,
    };
    let head = seq![ActionView::CallFunction(ElementFunction::Focus)] + (if clear {
        seq![ActionView::CallFunction(ElementFunction::ClearForTyping)]
    } else {
        Seq::empty()
    });
    assert(type_text_plan(text, clear, delay_ms) == head + typed_text_actions(text, delay));
    typed_texts_of_concat(head, typed_text_actions(text, delay));
    typed_text_puts_in_its_characters(text, delay);
    if clear {
        assert(head.drop_last() =~= seq![head[0]]);
    }
    assert(seq![head[0]].drop_last() =~= Seq::<ActionView>::empty());
    reveal_with_fuel(typed_texts, 3);
    reveal_with_fuel(typed_unmodified_texts, 3);
    assert(typed_texts(head) =~= Seq::<char>::empty());
    assert(typed_unmodified_texts(head) =~= Seq::<char>::empty());
    assert(Seq::<char>::empty() + text =~= text);
}

/// A click moves to the point, presses the named button with its mask (2
/// for "right", 4 for "middle", 1 for any other name) and the click count,
/// then releases it with no button held.
pub proof fn click_presses_the_named_button(button: Seq<char>, click_count: int)
    ensures
        click_plan(button, click_count).len() == 3,
        click_plan(button, click_count)[0] == mouse_moved(),
        mouse_moved().event_type == "mouseMoved"@,
        mouse_moved().button is None,
        mouse_moved().buttons is None,
        mouse_moved().click_count is None,
        click_plan(button, click_count)[1].event_type == "mousePressed"@,
        click_plan(button, click_count)[1].button == Some(button),
        click_plan(button, click_count)[1].click_count == Some(click_count),
        button == "right"@ ==> click_plan(button, click_count)[1].buttons == Some(2int),
        button == "middle"@ ==> click_plan(button, click_count)[1].buttons == Some(4int),
        button != "right"@ && button != "middle"@ ==> click_plan(button, click_count)[1].buttons == Some(1int),
        click_plan(button, click_count)[2].event_type == "mouseReleased"@,
        click_plan(button, click_count)[2].button == Some(button),
        click_plan(button, click_count)[2].buttons == Some(0int),
        click_plan(button, click_count)[2].click_count == Some(click_count),
        button == "right"@ ==> button_mask(button) == 2,
        button == "middle"@ ==> button_mask(button) == 4,
        button != "right"@ && button != "middle"@ ==> button_mask(button) == 1,
{
    reveal_strlit("right");
    reveal_strlit("middle");
    assert("right"@.len() != "middle"@.len());
}

/// Filling focuses the element, clears it, then inserts the value exactly as
/// given, and does nothing else.
pub proof fn fill_inserts_the_value_unchanged(value: Seq<char>)
    ensures
        fill_plan(value).len() == 3,
        fill_plan(value)[0] == ActionView::CallFunction(ElementFunction::Focus),
        fill_plan(value)[1] == ActionView::CallFunction(ElementFunction::ClearValue),
        fill_plan(value)[2] == ActionView::InsertText(value),
{
}

/// The code of a typed character: non-empty exactly for ASCII letters and
/// digits; `Digit` and the digit exactly for the ten ASCII digits; `Key` and
/// the upper-case letter for a letter. Every character other than the Enter,
/// Tab and Space characters is sent as its own key with its own value as key
/// code.
pub proof fn typed_char_code_by_class(c: char)
    ensures
        typed_char_code(c).len() > 0 <==> ('a' <= c <= 'z' || 'A' <= c <= 'Z' || '0' <= c <= '9'),
        ('0' <= c <= '9') <==> typed_char_code(c) == "Digit"@ + seq![c],
        ('A' <= c <= 'Z') ==> typed_char_code(c) == "Key"@ + seq![c],
        ('a' <= c <= 'z') ==> typed_char_code(c).len() == 4 && typed_char_code(c).take(3) == "Key"@
            && typed_char_code(c)[3] as int == c as int - 32,
        (c != '\n' && c != '\r' && c != '\t' && c != ' ') ==> char_key(c) == (
            seq![c],
            typed_char_code(c),
            c as int,
        ),
{
    reveal_strlit("Digit");
    reveal_strlit("Key");
    assert(("Digit"@ + seq![c]).len() == 6);
    if 'A' <= c <= 'Z' || 'a' <= c <= 'z' {
        assert(typed_char_code(c).len() == 4);
        assert(typed_char_code(c).take(3) =~= "Key"@);
    }
}

/// A name whose lower-case form is none of the aliases of the named-key
/// table is pressed as its one ASCII character is typed, if it is one; any
/// other name is sent as itself, as key and code, with key code 0.
pub proof fn other_names_are_sent_as_given(key: Seq<char>, lowered: Seq<char>)
    requires
        !(lowered == "enter"@ || lowered == "return"@ || lowered == "tab"@ || lowered == "escape"@ || lowered == "esc"@ || lowered == "backspace"@ || lowered == "delete"@ || lowered == "arrowup"@ || lowered == "up"@ || lowered == "arrowdown"@ || lowered == "down"@ || lowered == "arrowleft"@ || lowered == "left"@ || lowered == "arrowright"@ || lowered == "right"@ || lowered == "home"@ || lowered == "end"@ || lowered == "pageup"@ || lowered == "pagedown"@ || lowered == "space"@ || lowered == " "@),
    ensures
        named_key(key, lowered) == (if key.len() == 1 && key[0] <= '\x7f' {
            char_key(key[0])
        } else {
            (key, key, 0int)
        }),
{
}

/// The Enter, Tab and Space characters are typed as those keys.
pub proof fn whitespace_chars_are_named_keys()
    ensures
        char_key('\n') == ("Enter"@, "Enter"@, 13int),
        char_key('\r') == ("Enter"@, "Enter"@, 13int),
        char_key('\t') == ("Tab"@, "Tab"@, 9int),
        char_key(' ') == (" "@, "Space"@, 32int),
{
}

/// Pressing a key sends a `keyDown` then a `keyUp`, both with the key, code
/// and key code of the name (as both the Windows and the native key code),
/// no text, and the modifiers unchanged.
pub proof fn key_press_sends_down_then_up(key: Seq<char>, lowered: Seq<char>, modifiers: Option<int>)
    ensures
        key_press_plan(key, lowered, modifiers).len() == 2,
        key_press_plan(key, lowered, modifiers)[0] == ActionView::DispatchKey(KeyEventView {
            event_type: "keyDown"@,
            key: named_key(key, lowered).0,
            code: named_key(key, lowered).1,
            text: None,
            unmodified_text: None,
            windows_virtual_key_code: named_key(key, lowered).2,
            native_virtual_key_code: named_key(key, lowered).2,
            modifiers: modifiers,
        }),
        key_press_plan(key, lowered, modifiers)[1] == ActionView::DispatchKey(KeyEventView {
            event_type: "keyUp"@,
            key: named_key(key, lowered).0,
            code: named_key(key, lowered).1,
            text: None,
            unmodified_text: None,
            windows_virtual_key_code: named_key(key, lowered).2,
            native_virtual_key_code: named_key(key, lowered).2,
            modifiers: modifiers,
        }),
{
}

/// Typing one character sends a `keyDown` carrying the character as its
/// text and unmodified text, then a `keyUp` with no text, both with the
/// character's key, code and key code and no modifiers, then a pause of the
/// delay where it is above 0.
pub proof fn typed_char_sends_down_up_pause(c: char, delay_ms: u64)
    ensures
        typed_char_actions(c, delay_ms).len() == (if delay_ms > 0 { 3int } else { 2int }),
        typed_char_actions(c, delay_ms)[0] == ActionView::DispatchKey(KeyEventView {
            event_type: "keyDown"@,
            key: char_key(c).0,
            code: char_key(c).1,
            text: Some(seq![c]),
            unmodified_text: Some(seq![c]),
            windows_virtual_key_code: char_key(c).2,
            native_virtual_key_code: char_key(c).2,
            modifiers: None,
        }),
        typed_char_actions(c, delay_ms)[1] == ActionView::DispatchKey(KeyEventView {
            event_type: "keyUp"@,
            key: char_key(c).0,
            code: char_key(c).1,
            text: None,
            unmodified_text: None,
            windows_virtual_key_code: char_key(c).2,
            native_virtual_key_code: char_key(c).2,
            modifiers: None,
        }),
        delay_ms > 0 ==> typed_char_actions(c, delay_ms)[2] == ActionView::Pause(delay_ms),
{
}

} // verus!
