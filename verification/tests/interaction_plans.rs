use cdp_input::actions::{
    fill_actions, key_press_actions, key_press_actions_lowered, type_text_actions, Action, ElementFunction,
    KeyEvent,
};

fn expect_key(
    action: &Action,
    event_type: &str,
    key: &str,
    code: &str,
    text: Option<&str>,
    key_code: i32,
    modifiers: Option<i32>,
) {
    match action {
        Action::DispatchKey(KeyEvent {
            event_type: t,
            key: k,
            code: c,
            text: tx,
            unmodified_text: utx,
            windows_virtual_key_code: w,
            native_virtual_key_code: n,
            modifiers: m,
        }) => {
            assert_eq!(t, event_type);
            assert_eq!(k, key);
            assert_eq!(c, code);
            assert_eq!(tx.as_deref(), text);
            assert_eq!(utx.as_deref(), text);
            assert_eq!(*w, key_code);
            assert_eq!(*n, key_code);
            assert_eq!(*m, modifiers);
        }
        other => panic!("expected a key event, got {:?}", other),
    }
}

fn expect_call(action: &Action, f: ElementFunction) {
    match action {
        Action::CallFunction(g) => assert_eq!(*g, f),
        other => panic!("expected a function call, got {:?}", other),
    }
}

#[test]
fn type_text_focuses_clears_and_types_each_character() {
    let actions = type_text_actions("a\n", true, Some(10));
    assert_eq!(actions.len(), 8);
    expect_call(&actions[0], ElementFunction::Focus);
    expect_call(&actions[1], ElementFunction::ClearForTyping);
    expect_key(&actions[2], "keyDown", "a", "KeyA", Some("a"), 97, None);
    expect_key(&actions[3], "keyUp", "a", "KeyA", None, 97, None);
    assert!(matches!(actions[4], Action::Pause(10)));
    expect_key(&actions[5], "keyDown", "Enter", "Enter", Some("\n"), 13, None);
    expect_key(&actions[6], "keyUp", "Enter", "Enter", None, 13, None);
    assert!(matches!(actions[7], Action::Pause(10)));
}

#[test]
fn type_text_without_clear_or_delay() {
    let actions = type_text_actions("Z9", false, None);
    assert_eq!(actions.len(), 5);
    expect_call(&actions[0], ElementFunction::Focus);
    expect_key(&actions[1], "keyDown", "Z", "KeyZ", Some("Z"), 90, None);
    expect_key(&actions[2], "keyUp", "Z", "KeyZ", None, 90, None);
    expect_key(&actions[3], "keyDown", "9", "Digit9", Some("9"), 57, None);
    expect_key(&actions[4], "keyUp", "9", "Digit9", None, 57, None);
    // A zero delay sends no pauses.
    assert_eq!(type_text_actions("xy", false, Some(0)).len(), 5);
    // Empty text only focuses.
    assert_eq!(type_text_actions("", false, Some(5)).len(), 1);
}

#[test]
fn type_text_of_a_non_ascii_character() {
    let actions = type_text_actions("\u{e9}", false, None);
    assert_eq!(actions.len(), 3);
    expect_key(&actions[1], "keyDown", "\u{e9}", "", Some("\u{e9}"), 233, None);
    expect_key(&actions[2], "keyUp", "\u{e9}", "", None, 233, None);
}

#[test]
fn fill_focuses_clears_and_inserts() {
    let actions = fill_actions("hello world");
    assert_eq!(actions.len(), 3);
    expect_call(&actions[0], ElementFunction::Focus);
    expect_call(&actions[1], ElementFunction::ClearValue);
    match &actions[2] {
        Action::InsertText(t) => assert_eq!(t, "hello world"),
        other => panic!("expected text insertion, got {:?}", other),
    }
}

#[test]
fn key_press_sends_down_then_up_with_modifiers() {
    let actions = key_press_actions("Enter", Some(2));
    assert_eq!(actions.len(), 2);
    expect_key(&actions[0], "keyDown", "Enter", "Enter", None, 13, Some(2));
    expect_key(&actions[1], "keyUp", "Enter", "Enter", None, 13, Some(2));

    let actions = key_press_actions("a", None);
    expect_key(&actions[0], "keyDown", "a", "KeyA", None, 97, None);
    expect_key(&actions[1], "keyUp", "a", "KeyA", None, 97, None);

    let actions = key_press_actions("PAGEDOWN", Some(8));
    expect_key(&actions[0], "keyDown", "PageDown", "PageDown", None, 34, Some(8));
    expect_key(&actions[1], "keyUp", "PageDown", "PageDown", None, 34, Some(8));
}

#[test]
fn key_press_with_lowered_name() {
    let actions = key_press_actions_lowered("Whatever", "esc", None);
    expect_key(&actions[0], "keyDown", "Escape", "Escape", None, 27, None);
    expect_key(&actions[1], "keyUp", "Escape", "Escape", None, 27, None);
}

#[test]
fn element_function_declarations() {
    assert_eq!(ElementFunction::Focus.declaration(), "function() { this.focus(); }");
    assert_eq!(
        ElementFunction::ScrollIntoView.declaration(),
        "function() { this.scrollIntoView({ block: 'center', inline: 'center' }); }"
    );
    assert_eq!(ElementFunction::ScrollBy.declaration(), "function(dx, dy) { this.scrollBy(dx, dy); }");
    assert!(ElementFunction::ClearValue.declaration().contains("this.select && this.select();"));
    assert!(ElementFunction::FocusAndClear.declaration().contains("new Event('change', { bubbles: true })"));
    assert!(ElementFunction::SelectAll.declaration().contains("sel.addRange(range);"));
    assert!(ElementFunction::Highlight.declaration().contains("'2px solid red'"));
    assert!(ElementFunction::SelectOptions.declaration().contains("vals.includes(opt.textContent.trim())"));
}

fn key_summary(actions: &[Action]) -> Vec<String> {
    actions
        .iter()
        .filter_map(|a| match a {
            Action::DispatchKey(e) => Some(format!(
                "{}|{}|{}|{:?}|{}",
                e.event_type, e.key, e.code, e.text, e.windows_virtual_key_code
            )),
            Action::Pause(ms) => Some(format!("pause {}", ms)),
            _ => None,
        })
        .collect()
}

#[test]
fn typing_in_pieces_sends_the_same_key_events() {
    let whole = key_summary(&type_text_actions("Hi 5!", false, Some(3)));
    let mut pieces = key_summary(&type_text_actions("Hi", false, Some(3)));
    pieces.extend(key_summary(&type_text_actions(" 5!", false, Some(3))));
    assert_eq!(whole, pieces);
    assert_eq!(whole.len(), 15);
}

#[test]
fn element_function_texts_are_sent_unchanged() {
    assert_eq!(ElementFunction::ClearValue.declaration(), r#"function() {
                    this.select && this.select();
                    this.value = '';
                    this.dispatchEvent(new Event('input', { bubbles: true }));
                }"#);
    assert_eq!(ElementFunction::ClearForTyping.declaration(), r#"function() {
                        this.select && this.select();
                        this.value = '';
                        this.dispatchEvent(new Event('input', { bubbles: true }));
                    }"#);
    assert_eq!(ElementFunction::FocusAndClear.declaration(), r#"function() {
                    this.focus();
                    this.value = '';
                    this.dispatchEvent(new Event('input', { bubbles: true }));
                    this.dispatchEvent(new Event('change', { bubbles: true }));
                }"#);
    assert_eq!(ElementFunction::SelectAll.declaration(), r#"function() {
                    this.focus();
                    if (typeof this.select === 'function') {
                        this.select();
                    } else {
                        const range = document.createRange();
                        range.selectNodeContents(this);
                        const sel = window.getSelection();
                        sel.removeAllRanges();
                        sel.addRange(range);
                    }
                }"#);
    assert_eq!(ElementFunction::Highlight.declaration(), r#"function() {
                    this.style.outline = '2px solid red';
                    this.style.outlineOffset = '2px';
                    const el = this;
                    setTimeout(() => {
                        el.style.outline = '';
                        el.style.outlineOffset = '';
                    }, 3000);
                }"#);
    assert_eq!(ElementFunction::SelectOptions.declaration(), r#"function(vals) {
            const options = Array.from(this.options);
            for (const opt of options) {
                opt.selected = vals.includes(opt.value) || vals.includes(opt.textContent.trim());
            }
            this.dispatchEvent(new Event('change', { bubbles: true }));
        }"#);
}
