//! The Chrome DevTools Protocol commands each interaction sends, as plain
//! values: key events, mouse events, page functions called on an element,
//! text insertion and pauses between typed characters.
use vstd::prelude::*;

use crate::keys::{char_key, char_to_key_info, key_triple, named_key, named_key_info};
use crate::text::{char_to_string, lowercase};

verus! {

/// A page function that an interaction calls on the element it targets
/// (`Runtime.callFunctionOn` with the element as `this`).
#[derive(Clone, Copy, Debug, PartialEq, Eq, Structural)]
pub enum ElementFunction {
    /// Focuses the element.
    Focus,
    /// Selects the element's content, empties its value and fires `input`.
    ClearValue,
    /// The same as `ClearValue`, in the text that typing sends.
    ClearForTyping,
    /// Focuses the element, empties its value and fires `input` and `change`.
    FocusAndClear,
    /// Focuses the element and selects all of its content.
    SelectAll,
    /// Scrolls the element into the middle of the view.
    ScrollIntoView,
    /// Outlines the element in red for three seconds.
    Highlight,
    /// Scrolls the element by the two numbers passed as arguments.
    ScrollBy,
    /// Selects the options whose value or trimmed text is in the list passed
    /// as argument, then fires `change`.
    SelectOptions,
}

impl ElementFunction {
    /// The JavaScript function declaration sent for this page function.
    pub open spec fn source(self) -> Seq<char> {
        match self {
            ElementFunction::Focus => "function() { this.focus(); }"@,
            ElementFunction::ClearValue => "function() {
                    this.select && this.select();
                    this.value = '';
                    this.dispatchEvent(new Event('input', { bubbles: true }));
                }"@,
            ElementFunction::ClearForTyping => "function() {
                        this.select && this.select();
                        this.value = '';
                        this.dispatchEvent(new Event('input', { bubbles: true }));
                    }"@,
            ElementFunction::FocusAndClear => "function() {
                    this.focus();
                    this.value = '';
                    this.dispatchEvent(new Event('input', { bubbles: true }));
                    this.dispatchEvent(new Event('change', { bubbles: true }));
                }"@,
            ElementFunction::SelectAll => "function() {
                    this.focus();
                    if (typeof this.select === 'function') {
                        this.select();
                    } else {
                        const range = document.createRange();
                        range.selectNodeContents(this);
                        const sel = window.getSelection();
                        sel.removeAllRanges();
                        sel.addRange(range);
                    }
                }"@,
            ElementFunction::ScrollIntoView =>
                "function() { this.scrollIntoView({ block: 'center', inline: 'center' }); }"@,
            ElementFunction::Highlight => "function() {
                    this.style.outline = '2px solid red';
                    this.style.outlineOffset = '2px';
                    const el = this;
                    setTimeout(() => {
                        el.style.outline = '';
                        el.style.outlineOffset = '';
                    }, 3000);
                }"@,
            ElementFunction::ScrollBy => "function(dx, dy) { this.scrollBy(dx, dy); }"@,
            ElementFunction::SelectOptions => "function(vals) {
            const options = Array.from(this.options);
            for (const opt of options) {
                opt.selected = vals.includes(opt.value) || vals.includes(opt.textContent.trim());
            }
            this.dispatchEvent(new Event('change', { bubbles: true }));
        }"@,
        }
    }

    /// Returns the JavaScript function declaration sent for this page
    /// function.
    pub fn declaration(&self) -> (src: &'static str)
        ensures
            src@ == self.source(),
    {
        match self {
            ElementFunction::Focus => "function() { this.focus(); }",
            ElementFunction::ClearValue => "function() {
                    this.select && this.select();
                    this.value = '';
                    this.dispatchEvent(new Event('input', { bubbles: true }));
                }",
            ElementFunction::ClearForTyping => "function() {
                        this.select && this.select();
                        this.value = '';
                        this.dispatchEvent(new Event('input', { bubbles: true }));
                    }",
            ElementFunction::FocusAndClear => "function() {
                    this.focus();
                    this.value = '';
                    this.dispatchEvent(new Event('input', { bubbles: true }));
                    this.dispatchEvent(new Event('change', { bubbles: true }));
                }",
            ElementFunction::SelectAll => "function() {
                    this.focus();
                    if (typeof this.select === 'function') {
                        this.select();
                    } else {
                        const range = document.createRange();
                        range.selectNodeContents(this);
                        const sel = window.getSelection();
                        sel.removeAllRanges();
                        sel.addRange(range);
                    }
                }",
            ElementFunction::ScrollIntoView =>
                "function() { this.scrollIntoView({ block: 'center', inline: 'center' }); }",
            ElementFunction::Highlight => "function() {
                    this.style.outline = '2px solid red';
                    this.style.outlineOffset = '2px';
                    const el = this;
                    setTimeout(() => {
                        el.style.outline = '';
                        el.style.outlineOffset = '';
                    }, 3000);
                }",
            ElementFunction::ScrollBy => "function(dx, dy) { this.scrollBy(dx, dy); }",
            ElementFunction::SelectOptions => "function(vals) {
            const options = Array.from(this.options);
            for (const opt of options) {
                opt.selected = vals.includes(opt.value) || vals.includes(opt.textContent.trim());
            }
            this.dispatchEvent(new Event('change', { bubbles: true }));
        }",
        }
    }
}

/// An `Input.dispatchKeyEvent` command.
#[derive(Debug)]
pub struct KeyEvent {
    /// "keyDown" or "keyUp".
    pub event_type: String,
    pub key: String,
    pub code: String,
    pub text: Option<String>,
    pub unmodified_text: Option<String>,
    pub windows_virtual_key_code: i32,
    pub native_virtual_key_code: i32,
    /// CDP modifier bitmask: 1 = Alt, 2 = Control, 4 = Meta, 8 = Shift.
    pub modifiers: Option<i32>,
}

/// The model of a [`KeyEvent`].
pub struct KeyEventView {
    pub event_type: Seq<char>,
    pub key: Seq<char>,
    pub code: Seq<char>,
    pub text: Option<Seq<char>>,
    pub unmodified_text: Option<Seq<char>>,
    pub windows_virtual_key_code: int,
    pub native_virtual_key_code: int,
    pub modifiers: Option<int>,
}

/// The model of an optional string.
pub open spec fn opt_text(s: Option<String>) -> Option<Seq<char>> {
    match s {
        Some(t) => Some(t@),
        None => None,
    }
}

/// The model of an optional integer.
pub open spec fn opt_int(v: Option<i32>) -> Option<int> {
    match v {
        Some(x) => Some(x as int),
        None => None,
    }
}

impl View for KeyEvent {
    type V = KeyEventView;

    open spec fn view(&self) -> KeyEventView {
        KeyEventView {
            event_type: self.event_type@,
            key: self.key@,
            code: self.code@,
            text: opt_text(self.text),
            unmodified_text: opt_text(self.unmodified_text),
            windows_virtual_key_code: self.windows_virtual_key_code as int,
            native_virtual_key_code: self.native_virtual_key_code as int,
            modifiers: opt_int(self.modifiers),
        }
    }
}

/// The `keyDown` event for the key `info` = (key, code, key code), carrying
/// `text` as both text and unmodified text.
pub open spec fn key_down(
    info: (Seq<char>, Seq<char>, int),
    text: Option<Seq<char>>,
    modifiers: Option<int>,
) -> KeyEventView {
    KeyEventView {
        event_type: "keyDown"@,
        key: info.0,
        code: info.1,
        text: text,
        unmodified_text: text,
        windows_virtual_key_code: info.2,
        native_virtual_key_code: info.2,
        modifiers: modifiers,
    }
}

/// The `keyUp` event for the key `info` = (key, code, key code); it carries
/// no text.
pub open spec fn key_up(info: (Seq<char>, Seq<char>, int), modifiers: Option<int>) -> KeyEventView {
    KeyEventView {
        event_type: "keyUp"@,
        key: info.0,
        code: info.1,
        text: None,
        unmodified_text: None,
        windows_virtual_key_code: info.2,
        native_virtual_key_code: info.2,
        modifiers: modifiers,
    }
}

/// One step of an interaction on an element.
#[derive(Debug)]
pub enum Action {
    /// Call a page function on the element, without arguments.
    CallFunction(ElementFunction),
    /// `Input.insertText` with this text.
    InsertText(String),
    /// `Input.dispatchKeyEvent`.
    DispatchKey(KeyEvent),
    /// Wait this many milliseconds.
    Pause(u64),
}

/// The model of an [`Action`].
pub enum ActionView {
    CallFunction(ElementFunction),
    InsertText(Seq<char>),
    DispatchKey(KeyEventView),
    Pause(u64),
}

impl View for Action {
    type V = ActionView;

    open spec fn view(&self) -> ActionView {
        match self {
            Action::CallFunction(f) => ActionView::CallFunction(*f),
            Action::InsertText(t) => ActionView::InsertText(t@),
            Action::DispatchKey(e) => ActionView::DispatchKey(e@),
            Action::Pause(ms) => ActionView::Pause(*ms),
        }
    }
}

/// The models of a sequence of actions.
pub open spec fn action_views(actions: Seq<Action>) -> Seq<ActionView> {
    actions.map_values(|a: Action| a@)
}

/// Builds a key event from a (key, code, key code) triple.
fn key_event(
    event_type: &str,
    info: &(String, String, i32),
    text: Option<String>,
    modifiers: Option<i32>,
) -> (e: KeyEvent)
    ensures
        e@ == (KeyEventView {
            event_type: event_type@,
            key: info.0@,
            code: info.1@,
            text: opt_text(text),
            unmodified_text: opt_text(text),
            windows_virtual_key_code: info.2 as int,
            native_virtual_key_code: info.2 as int,
            modifiers: opt_int(modifiers),
        }),
{
    let unmodified_text = match &text {
        Some(t) => Some(t.clone()),
        None => None,
    };
    KeyEvent {
        event_type: String::from_str(event_type),
        key: info.0.clone(),
        code: info.1.clone(),
        text: text,
        unmodified_text: unmodified_text,
        windows_virtual_key_code: info.2,
        native_virtual_key_code: info.2,
        modifiers: modifiers,
    }
}

} // verus!

verus! {

/// The events sent for one typed character: `keyDown` carrying the character
/// as its text, `keyUp`, then a pause where a delay is set.
pub open spec fn typed_char_actions(c: char, delay_ms: u64) -> Seq<ActionView> {
    seq![
        ActionView::DispatchKey(key_down(char_key(c), Some(seq![c]), None)),
        ActionView::DispatchKey(key_up(char_key(c), None)),
    ] + if delay_ms > 0 {
        seq![ActionView::Pause(delay_ms)]
    } else {
        Seq::empty()
    }
}

/// The events sent for typing `text`, character by character.
pub open spec fn typed_text_actions(text: Seq<char>, delay_ms: u64) -> Seq<ActionView>
    decreases text.len(),
{
    if text.len() == 0 {
        Seq::empty()
    } else {
        typed_text_actions(text.drop_last(), delay_ms) + typed_char_actions(text.last(), delay_ms)
    }
}

/// What typing `text` into an element does: focus it, clear it where asked,
/// then type each character (with `delay_ms` between characters, none where
/// it is absent).
pub open spec fn type_text_plan(text: Seq<char>, clear: bool, delay_ms: Option<u64>) -> Seq<ActionView> {
    seq![ActionView::CallFunction(ElementFunction::Focus)] + (if clear {
        seq![ActionView::CallFunction(ElementFunction::ClearForTyping)]
    } else {
        Seq::empty()
    }) + typed_text_actions(
        text,
        match delay_ms {
            Some(d) => d,
            None => 0,
        },
    )
}

/// What filling an element with `value` does: focus it, clear it, insert the
/// value as one piece of text.
pub open spec fn fill_plan(value: Seq<char>) -> Seq<ActionView> {
    seq![
        ActionView::CallFunction(ElementFunction::Focus),
        ActionView::CallFunction(ElementFunction::ClearValue),
        ActionView::InsertText(value),
    ]
}

/// What pressing the key named `key` (whose lower-case form is `lowered`)
/// does: `keyDown` then `keyUp`, both without text and both with `modifiers`.
pub open spec fn key_press_plan(key: Seq<char>, lowered: Seq<char>, modifiers: Option<int>) -> Seq<ActionView> {
    seq![
        ActionView::DispatchKey(key_down(named_key(key, lowered), None, modifiers)),
        ActionView::DispatchKey(key_up(named_key(key, lowered), modifiers)),
    ]
}

/// Returns the steps that type `text` into an element: focus it, clear its
/// value when `clear` is set, then for each character a `keyDown` carrying the
/// character and a `keyUp`, each pair followed by a pause of `delay_ms` when
/// that is given and above 0.
pub fn type_text_actions(text: &str, clear: bool, delay_ms: Option<u64>) -> (actions: Vec<Action>)
    ensures
        action_views(actions@) == type_text_plan(text@, clear, delay_ms),
{
    broadcast use vstd::string::group_string_axioms;

    let mut actions: Vec<Action> = Vec::new();
    actions.push(Action::CallFunction(ElementFunction::Focus));
    if clear {
        actions.push(Action::CallFunction(ElementFunction::ClearForTyping));
    }
    let delay: u64 = match delay_ms {
        Some(d) => d,
        None => 0,
    };
    let ghost prefix = action_views(actions@);
    assert(prefix == type_text_plan(text@, clear, delay_ms).take(prefix.len() as int));
    for ch in it: text.chars()
        invariant
            it.seq() == text@,
            prefix == seq![ActionView::CallFunction(ElementFunction::Focus)] + (if clear {
                seq![ActionView::CallFunction(ElementFunction::ClearForTyping)]
            } else {
                Seq::<ActionView>::empty()
            }),
            delay == match delay_ms {
                Some(d) => d,
                None => 0u64,
            },
            action_views(actions@) == prefix + typed_text_actions(text@.take(it.index() as int), delay),
    {
        let ghost before = action_views(actions@);
        let info = char_to_key_info(ch);
        let down = key_event("keyDown", &info, Some(char_to_string(ch)), None);
        let up = key_event("keyUp", &info, None, None);
        actions.push(Action::DispatchKey(down));
        actions.push(Action::DispatchKey(up));
        if delay > 0 {
            actions.push(Action::Pause(delay));
        }
        proof {
            let done = text@.take(it.index() as int);
            let next = text@.take(it.index() + 1);
            assert(next.drop_last() =~= done);
            assert(next.last() == ch);
            assert(action_views(actions@) =~= before + typed_char_actions(ch, delay));
        }
    }
    assert(text@.take(text@.len() as int) =~= text@);
    actions
}

} // verus!

verus! {

/// Returns the steps that fill an element with `value`: focus it, clear its
/// value, then insert `value` as one piece of text.
pub fn fill_actions(value: &str) -> (actions: Vec<Action>)
    ensures
        action_views(actions@) == fill_plan(value@),
{
    let mut actions: Vec<Action> = Vec::new();
    actions.push(Action::CallFunction(ElementFunction::Focus));
    actions.push(Action::CallFunction(ElementFunction::ClearValue));
    actions.push(Action::InsertText(String::from_str(value)));
    assert(action_views(actions@) =~= fill_plan(value@));
    actions
}

/// The two key events of a key press from its (key, code, key code) triple.
fn key_press_events(info: (String, String, i32), modifiers: Option<i32>) -> (actions: Vec<Action>)
    ensures
        action_views(actions@) == seq![
            ActionView::DispatchKey(key_down(key_triple(info), None, opt_int(modifiers))),
            ActionView::DispatchKey(key_up(key_triple(info), opt_int(modifiers))),
        ],
{
    let down = key_event("keyDown", &info, None, modifiers);
    let up = key_event("keyUp", &info, None, modifiers);
    let mut actions: Vec<Action> = Vec::new();
    actions.push(Action::DispatchKey(down));
    actions.push(Action::DispatchKey(up));
    assert(action_views(actions@) =~= seq![
        ActionView::DispatchKey(key_down(key_triple(info), None, opt_int(modifiers))),
        ActionView::DispatchKey(key_up(key_triple(info), opt_int(modifiers))),
    ]);
    actions
}

/// Returns the `keyDown` + `keyUp` pair for the key named `key`, whose
/// lower-case form `lowered` the caller has computed, with the CDP modifier
/// bitmask `modifiers` (1 = Alt, 2 = Control, 4 = Meta, 8 = Shift) on both.
pub fn key_press_actions_lowered(key: &str, lowered: &str, modifiers: Option<i32>) -> (actions: Vec<Action>)
    ensures
        action_views(actions@) == key_press_plan(key@, lowered@, opt_int(modifiers)),
{
    key_press_events(crate::keys::named_key_info_lowered(key, lowered), modifiers)
}

/// Returns the `keyDown` + `keyUp` pair for the key named `key` (matched
/// without regard to case), with the CDP modifier bitmask `modifiers`
/// (1 = Alt, 2 = Control, 4 = Meta, 8 = Shift) on both.
pub fn key_press_actions(key: &str, modifiers: Option<i32>) -> (actions: Vec<Action>)
    ensures
        action_views(actions@) == key_press_plan(key@, lowercase(key@), opt_int(modifiers)),
{
    key_press_events(named_key_info(key), modifiers)
}

} // verus!
