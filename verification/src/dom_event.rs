//! The page function that dispatches a DOM event of a given type on an
//! element, with the event's type and init dictionary written as JSON.
use vstd::prelude::*;

verus! {

/// `serde_json::Value`, carried through unread.
#[verifier::external_type_specification]
#[verifier::external_body]
pub struct ExJsonValue(serde_json::Value);

/// `serde_json::Error`, carried through unread.
#[verifier::external_type_specification]
#[verifier::external_body]
pub struct ExJsonError(serde_json::Error);

/// Whether `c` stands unescaped in a JSON string literal.
pub open spec fn is_plain_json_char(c: char) -> bool {
    c != '"' && c != '\\' && c >= ' '
}

/// The lower-case hexadecimal digit of `n`, for `0 <= n < 16`.
pub open spec fn hex_digit(n: int) -> char {
    if n < 10 { (n + 48) as char } else { (n - 10 + 97) as char }
}

/// How one character is written inside a JSON string literal: `"` and `\`
/// behind a backslash, the short escapes `\b`, `\t`, `\n`, `\f`, `\r`, the
/// other control characters as `\u00` and two lower-case hex digits, every
/// other character as itself.
pub open spec fn json_escaped_char(c: char) -> Seq<char> {
    if c == '"' {
        seq!['\\', '"']
    } else if c == '\\' {
        seq!['\\', '\\']
    } else if c == '\x08' {
        seq!['\\', 'b']
    } else if c == '\t' {
        seq!['\\', 't']
    } else if c == '\n' {
        seq!['\\', 'n']
    } else if c == '\x0c' {
        seq!['\\', 'f']
    } else if c == '\r' {
        seq!['\\', 'r']
    } else if ' ' > c {
        seq!['\\', 'u', '0', '0', hex_digit(c as int / 16), hex_digit(c as int % 16)]
    } else {
        seq![c]
    }
}

/// The characters of `s` as written inside a JSON string literal.
pub open spec fn json_escaped(s: Seq<char>) -> Seq<char>
    decreases s.len(),
{
    if s.len() == 0 {
        Seq::empty()
    } else {
        json_escaped(s.drop_last()) + json_escaped_char(s.last())
    }
}

/// The JSON string literal of the text `s`.
pub open spec fn json_string_literal(s: Seq<char>) -> Seq<char> {
    seq!['"'] + json_escaped(s) + seq!['"']
}

/// A text with no character to escape is written as itself.
pub proof fn plain_text_is_not_escaped(s: Seq<char>)
    requires
        forall|i: int| 0 <= i < s.len() ==> is_plain_json_char(#[trigger] s[i]),
    ensures
        json_escaped(s) == s,
    decreases s.len(),
{
    if s.len() > 0 {
        let front = s.drop_last();
        assert forall|i: int| 0 <= i < front.len() implies is_plain_json_char(#[trigger] front[i]) by {
            assert(front[i] == s[i]);
        }
        plain_text_is_not_escaped(front);
        assert(is_plain_json_char(s[s.len() - 1]));
        assert(s =~= front + seq![s.last()]);
    }
}

/// The JSON text that `serde_json::to_string` writes for a `Value`; with
/// the default features its objects are `BTreeMap`s, so it depends on the
/// value alone.
pub uninterp spec fn json_value_text(v: serde_json::Value) -> Seq<char>;

/// Calls `serde_json::to_string` on a `str`. Serializing a `str` only writes
/// to a `Vec<u8>`, which cannot fail, so the result is always `Ok`; its text
/// is `s` between double quotes, with `"`, `\` and the control characters
/// escaped as `format_escaped_str` does.
#[verifier::external_body]
fn encode_json_str(s: &str) -> (encoded: Result<String, serde_json::Error>)
    ensures
        encoded is Ok,
        encoded matches Ok(t) ==> t@ == json_string_literal(s@),
{
    serde_json::to_string(s)
}

/// Calls `serde_json::to_string` on a `serde_json::Value`. Its maps have
/// string keys and its numbers are finite, and it is written to a `Vec<u8>`,
/// so the result is always `Ok`; its text is named `json_value_text`.
#[verifier::external_body]
fn encode_json_value(v: &serde_json::Value) -> (encoded: Result<String, serde_json::Error>)
    ensures
        encoded is Ok,
        encoded matches Ok(t) ==> t@ == json_value_text(*v),
{
    serde_json::to_string(v)
}

/// The init dictionary written into the page function: the caller's init
/// encoded as JSON, `{}` where encoding failed, `{ bubbles: true }` where the
/// caller gave none.
pub open spec fn event_init_source(encoded: Option<Result<String, serde_json::Error>>) -> Seq<char> {
    match encoded {
        None => "{ bubbles: true }"@,
        Some(Ok(t)) => t@,
        Some(Err(_)) => "{}"@,
    }
}

/// The page function that dispatches an event whose type is written as the
/// JSON literal `event_type_literal` and whose init is `init_literal`.
pub open spec fn dispatch_event_source(event_type_literal: Seq<char>, init_literal: Seq<char>) -> Seq<char> {
    "function() { this.dispatchEvent(new Event("@ + event_type_literal + ", "@ + init_literal + ")); }"@
}

/// Returns the init dictionary to write for an event, from the JSON encoding
/// of the caller's init, if any.
pub fn event_init_literal(encoded: Option<Result<String, serde_json::Error>>) -> (init: String)
    ensures
        init@ == event_init_source(encoded),
{
    match encoded {
        None => String::from_str("{ bubbles: true }"),
        Some(Ok(t)) => t,
        Some(Err(_)) => String::from_str("{}"),
    }
}

/// Returns the page function that dispatches an event whose type is the JSON
/// literal `event_type_literal` and whose init is `init_literal`.
pub fn dispatch_event_declaration(event_type_literal: &str, init_literal: &str) -> (src: String)
    ensures
        src@ == dispatch_event_source(event_type_literal@, init_literal@),
{
    let mut src = String::from_str("function() { this.dispatchEvent(new Event(");
    src.append(event_type_literal);
    src.append(", ");
    src.append(init_literal);
    src.append(")); }");
    src
}

/// Returns the page function that dispatches an event of type `event_type`
/// on the element, with `event_init` (JSON-encoded) as its init, or
/// `{ bubbles: true }` where none is given.
pub fn dispatch_event_function(event_type: &str, event_init: Option<&serde_json::Value>) -> (src: String)
    ensures
        event_init is None ==> src@ == dispatch_event_source(
            json_string_literal(event_type@),
            "{ bubbles: true }"@,
        ),
        event_init matches Some(v) ==> src@ == dispatch_event_source(
            json_string_literal(event_type@),
            json_value_text(*v),
        ),
{
    let encoded_init = match event_init {
        Some(v) => Some(encode_json_value(v)),
        None => None,
    };
    let init = event_init_literal(encoded_init);
    let event_type_literal = match encode_json_str(event_type) {
        Ok(t) => t,
        Err(_) => String::new(),
    };
    dispatch_event_declaration(event_type_literal.as_str(), init.as_str())
}

} // verus!
