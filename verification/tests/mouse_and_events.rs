use cdp_input::dom_event::{dispatch_event_declaration, dispatch_event_function, event_init_literal};
use cdp_input::mouse::{click_events, click_needed, hover_events, mouse_button_mask, MouseEvent};

fn expect_mouse(e: &MouseEvent, event_type: &str, button: Option<&str>, buttons: Option<i32>, count: Option<i32>) {
    assert_eq!(e.event_type, event_type);
    assert_eq!(e.button.as_deref(), button);
    assert_eq!(e.buttons, buttons);
    assert_eq!(e.click_count, count);
}

#[test]
fn button_masks() {
    assert_eq!(mouse_button_mask("left"), 1);
    assert_eq!(mouse_button_mask("right"), 2);
    assert_eq!(mouse_button_mask("middle"), 4);
    assert_eq!(mouse_button_mask("Right"), 1);
    assert_eq!(mouse_button_mask(""), 1);
}

#[test]
fn click_moves_presses_and_releases() {
    let events = click_events("right", 1);
    assert_eq!(events.len(), 3);
    expect_mouse(&events[0], "mouseMoved", None, None, None);
    expect_mouse(&events[1], "mousePressed", Some("right"), Some(2), Some(1));
    expect_mouse(&events[2], "mouseReleased", Some("right"), Some(0), Some(1));

    let events = click_events("left", 2);
    expect_mouse(&events[1], "mousePressed", Some("left"), Some(1), Some(2));
    expect_mouse(&events[2], "mouseReleased", Some("left"), Some(0), Some(2));
}

#[test]
fn hover_only_moves() {
    let events = hover_events();
    assert_eq!(events.len(), 1);
    expect_mouse(&events[0], "mouseMoved", None, None, None);
}

#[test]
fn check_and_uncheck_click_only_when_needed() {
    assert!(click_needed(false, true));
    assert!(!click_needed(true, true));
    assert!(click_needed(true, false));
    assert!(!click_needed(false, false));
}

#[test]
fn dispatch_event_with_default_init() {
    assert_eq!(
        dispatch_event_function("click", None),
        "function() { this.dispatchEvent(new Event(\"click\", { bubbles: true })); }"
    );
}

#[test]
fn dispatch_event_type_is_json_escaped() {
    assert_eq!(
        dispatch_event_function("a\"b", None),
        "function() { this.dispatchEvent(new Event(\"a\\\"b\", { bubbles: true })); }"
    );
}

#[test]
fn dispatch_event_with_given_init() {
    let init = serde_json::from_str::<serde_json::Value>("{\"bubbles\":false}").unwrap();
    assert_eq!(
        dispatch_event_function("input", Some(&init)),
        "function() { this.dispatchEvent(new Event(\"input\", {\"bubbles\":false})); }"
    );
}

#[test]
fn event_init_literal_cases() {
    assert_eq!(event_init_literal(None), "{ bubbles: true }");
    assert_eq!(event_init_literal(Some(Ok("{\"x\":1}".to_string()))), "{\"x\":1}");
    let err = serde_json::from_str::<i32>("not json").unwrap_err();
    assert_eq!(event_init_literal(Some(Err(err))), "{}");
}

#[test]
fn dispatch_event_declaration_joins_its_parts() {
    assert_eq!(
        dispatch_event_declaration("\"focus\"", "{}"),
        "function() { this.dispatchEvent(new Event(\"focus\", {})); }"
    );
}

#[test]
fn dispatch_event_type_escapes_control_characters() {
    assert_eq!(
        dispatch_event_function("a\u{1}\n\\\u{1f}\u{7f}\u{e9}", None),
        "function() { this.dispatchEvent(new Event(\"a\\u0001\\n\\\\\\u001f\u{7f}\u{e9}\", { bubbles: true })); }"
    );
}
