//! Small verified helpers on strings.
use vstd::prelude::*;

verus! {

/// The lower-case form of `s` as `str::to_lowercase` computes it (Unicode
/// lower-case mapping, the same for every run and machine).
pub uninterp spec fn lowercase(s: Seq<char>) -> Seq<char>;

/// Whether `c` is an ASCII character.
pub open spec fn is_ascii_char(c: char) -> bool {
    c <= '\x7f'
}

/// Whether every character of `s` is ASCII.
pub open spec fn is_ascii_text(s: Seq<char>) -> bool {
    forall|i: int| 0 <= i < s.len() ==> is_ascii_char(#[trigger] s[i])
}

/// The lower-case form of an ASCII upper-case letter; any other character is
/// kept.
pub open spec fn ascii_lower(c: char) -> char {
    if 'A' <= c <= 'Z' { ((c as u32) + 32) as char } else { c }
}

/// `s` with its ASCII upper-case letters made lower-case.
pub open spec fn ascii_lowercase(s: Seq<char>) -> Seq<char> {
    s.map_values(|c: char| ascii_lower(c))
}

/// Calls `str::to_lowercase`: the result is the lower-case form of `s`,
/// given the name `lowercase`. Where `s` is all ASCII, `to_lowercase` lowers
/// it byte by byte with `u8::to_ascii_lowercase` (A-Z to a-z, every other
/// character kept), which is the one further fact claimed here.
#[verifier::external_body]
pub(crate) fn to_lowercase_string(s: &str) -> (lowered: String)
    ensures
        lowered@ == lowercase(s@),
        is_ascii_text(s@) ==> lowered@ == ascii_lowercase(s@),
{
    s.to_lowercase()
}

/// Calls `ToString::to_string` on a `char`, which its `Display` impl writes
/// as the one character itself.
#[verifier::external_body]
pub(crate) fn char_to_string(c: char) -> (s: String)
    ensures
        s@ == seq![c],
{
    c.to_string()
}

/// Whether `s`, whose length in characters is `s_len`, is the text `lit`.
pub fn same_text(s: &str, s_len: usize, lit: &str) -> (same: bool)
    requires
        s_len == s@.len(),
    ensures
        same == (s@ == lit@),
{
    let lit_len = lit.unicode_len();
    if s_len != lit_len {
        return false;
    }
    let mut i: usize = 0;
    while i < lit_len
        invariant
            s_len == lit_len,
            lit_len == lit@.len(),
            s_len == s@.len(),
            i <= lit_len,
            forall|j: int| 0 <= j < i ==> s@[j] == lit@[j],
        decreases lit_len - i,
    {
        if s.get_char(i) != lit.get_char(i) {
            return false;
        }
        i = i + 1;
    }
    assert(s@ =~= lit@);
    true
}

} // verus!
