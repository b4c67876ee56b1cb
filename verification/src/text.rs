//! Texts, a character at a time.

use vstd::prelude::*;

verus! {

/// Whether a character opens a bracketed group.
pub open spec fn opener(c: char) -> bool {
    c == '(' || c == '[' || c == '{'
}

/// Whether a text holds a character that opens a bracketed group.
pub open spec fn has_opener(text: Seq<char>) -> bool {
    exists|i: int| 0 <= i < text.len() && opener(#[trigger] text[i])
}

/// Whether a character is a letter or a digit of ASCII, an underscore, or beyond ASCII:
/// whether it can stand in a name and starts neither a group nor a literal nor a comment.
pub open spec fn plain_char(c: char) -> bool {
    ('a' <= c && c <= 'z') || ('A' <= c && c <= 'Z') || ('0' <= c && c <= '9') || c == '_' || c
        > '\u{7f}'
}

/// Whether every character of a text is plain.
pub open spec fn plain(text: Seq<char>) -> bool {
    forall|i: int| 0 <= i < text.len() ==> plain_char(#[trigger] text[i])
}

/// Calls `String::push`, which appends the character to the end of the text.
#[verifier::external_body]
pub(crate) fn push_char(text: &mut String, c: char)
    ensures
        final(text)@ == old(text)@.push(c),
{
    text.push(c)
}

/// Whether a text holds a character that opens a bracketed group.
pub fn holds_opener(text: &str) -> (found: bool)
    ensures
        found == has_opener(text@),
{
    let len = text.unicode_len();
    let mut i: usize = 0;
    while i < len
        invariant
            len == text@.len(),
            i <= len,
            forall|j: int| 0 <= j < i ==> !opener(#[trigger] text@[j]),
        decreases len - i,
    {
        let c = text.get_char(i);
        if c == '(' || c == '[' || c == '{' {
            assert(opener(text@[i as int]));
            return true;
        }
        i += 1;
    }
    false
}

/// Whether every character of a text is plain.
pub fn is_plain(text: &str) -> (all: bool)
    ensures
        all == plain(text@),
{
    let len = text.unicode_len();
    let mut i: usize = 0;
    while i < len
        invariant
            len == text@.len(),
            i <= len,
            forall|j: int| 0 <= j < i ==> plain_char(#[trigger] text@[j]),
        decreases len - i,
    {
        let c = text.get_char(i);
        let ok = ('a' <= c && c <= 'z') || ('A' <= c && c <= 'Z') || ('0' <= c && c <= '9') || c
            == '_' || c > '\u{7f}';
        if !ok {
            assert(!plain_char(text@[i as int]));
            return false;
        }
        i += 1;
    }
    true
}

} // verus!
