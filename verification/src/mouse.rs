//! The mouse events of hovering and clicking, and when checking or
//! unchecking a box takes a click. The caller places each event at the
//! element's centre.
use vstd::prelude::*;

use crate::text::same_text;

verus! {

/// An `Input.dispatchMouseEvent` command, without its coordinates.
#[derive(Debug)]
pub struct MouseEvent {
    /// "mouseMoved", "mousePressed" or "mouseReleased".
    pub event_type: String,
    pub button: Option<String>,
    pub buttons: Option<i32>,
    pub click_count: Option<i32>,
}

/// The model of a [`MouseEvent`].
pub struct MouseEventView {
    pub event_type: Seq<char>,
    pub button: Option<Seq<char>>,
    pub buttons: Option<int>,
    pub click_count: Option<int>,
}

impl View for MouseEvent {
    type V = MouseEventView;

    open spec fn view(&self) -> MouseEventView {
        MouseEventView {
            event_type: self.event_type@,
            button: crate::actions::opt_text(self.button),
            buttons: crate::actions::opt_int(self.buttons),
            click_count: crate::actions::opt_int(self.click_count),
        }
    }
}

/// The models of a sequence of mouse events.
pub open spec fn mouse_views(events: Seq<MouseEvent>) -> Seq<MouseEventView> {
    events.map_values(|e: MouseEvent| e@)
}

/// The `buttons` bitmask of a pressed button: 2 for "right", 4 for "middle",
/// 1 for any other name.
pub open spec fn button_mask(button: Seq<char>) -> int {
    if button == "right"@ {
        2
    } else if button == "middle"@ {
        4
    } else {
        1
    }
}

/// A `mouseMoved` event with no button.
pub open spec fn mouse_moved() -> MouseEventView {
    MouseEventView { event_type: "mouseMoved"@, button: None, buttons: None, click_count: None }
}

/// What clicking with `button` `click_count` times at one point sends: a
/// move there, a press with the button's bitmask, a release with no button
/// held.
pub open spec fn click_plan(button: Seq<char>, click_count: int) -> Seq<MouseEventView> {
    seq![
        mouse_moved(),
        MouseEventView {
            event_type: "mousePressed"@,
            button: Some(button),
            buttons: Some(button_mask(button)),
            click_count: Some(click_count),
        },
        MouseEventView {
            event_type: "mouseReleased"@,
            button: Some(button),
            buttons: Some(0),
            click_count: Some(click_count),
        },
    ]
}

/// Returns the `buttons` bitmask for the button named `button`: 2 for
/// "right", 4 for "middle", 1 otherwise.
pub fn mouse_button_mask(button: &str) -> (mask: i32)
    ensures
        mask == button_mask(button@),
{
    let n = button.unicode_len();
    if same_text(button, n, "right") {
        2
    } else if same_text(button, n, "middle") {
        4
    } else {
        1
    }
}

/// A `mouseMoved` event with no button.
fn moved_event() -> (event: MouseEvent)
    ensures
        event@ == mouse_moved(),
{
    MouseEvent {
        event_type: String::from_str("mouseMoved"),
        button: None,
        buttons: None,
        click_count: None,
    }
}

/// Returns the `mouseMoved` event of hovering over a point.
pub fn hover_events() -> (events: Vec<MouseEvent>)
    ensures
        mouse_views(events@) == seq![mouse_moved()],
{
    let mut events: Vec<MouseEvent> = Vec::new();
    events.push(moved_event());
    assert(mouse_views(events@) =~= seq![mouse_moved()]);
    events
}

/// Returns the mouse events of a click with `button` (a count of
/// `click_count`) at one point: move, press, release.
pub fn click_events(button: &str, click_count: i32) -> (events: Vec<MouseEvent>)
    ensures
        mouse_views(events@) == click_plan(button@, click_count as int),
{
    let mask = mouse_button_mask(button);
    let mut events: Vec<MouseEvent> = Vec::new();
    events.push(moved_event());
    events.push(
        MouseEvent {
            event_type: String::from_str("mousePressed"),
            button: Some(String::from_str(button)),
            buttons: Some(mask),
            click_count: Some(click_count),
        },
    );
    events.push(
        MouseEvent {
            event_type: String::from_str("mouseReleased"),
            button: Some(String::from_str(button)),
            buttons: Some(0),
            click_count: Some(click_count),
        },
    );
    assert(mouse_views(events@) =~= click_plan(button@, click_count as int));
    events
}

/// Whether bringing a box whose state is `is_checked` to the state
/// `want_checked` takes a click: only where the two differ.
pub open spec fn needs_click(is_checked: bool, want_checked: bool) -> bool {
    is_checked != want_checked
}

/// Returns whether checking (`want_checked`) or unchecking a box whose state
/// is `is_checked` takes a click: only where the state differs from the one
/// wanted.
pub fn click_needed(is_checked: bool, want_checked: bool) -> (needed: bool)
    ensures
        needed == needs_click(is_checked, want_checked),
{
    is_checked != want_checked
}

} // verus!
