//! Severity levels, named as the logging facade names them.
//!
//! A level is written in any case (`INFO`, `info`, `Info`) and is emitted in title case:
//! all letters lowered, then the first one raised. For a name of ASCII characters the
//! result is computed here; any other name is handed to the standard library's case
//! mapping.

use crate::text::push_char;
use vstd::prelude::*;
use vstd::string::StringExecFns;

verus! {

/// The lowercase form of an ASCII letter; any other character unchanged.
pub open spec fn ascii_lower(c: char) -> char {
    if 'A' <= c && c <= 'Z' {
        ((c as u8) + 32) as char
    } else {
        c
    }
}

/// The uppercase form of an ASCII letter; any other character unchanged.
pub open spec fn ascii_upper(c: char) -> char {
    if 'a' <= c && c <= 'z' {
        ((c as u8) - 32) as char
    } else {
        c
    }
}

/// The character that stands at `index` of the title-case form of an ASCII name.
pub open spec fn ascii_title_char(name: Seq<char>, index: int) -> char {
    if index == 0 {
        ascii_upper(ascii_lower(name[index]))
    } else {
        ascii_lower(name[index])
    }
}

/// Title case of a name of ASCII characters: every letter lowered, the first one raised.
pub open spec fn ascii_title(name: Seq<char>) -> Seq<char> {
    Seq::new(name.len(), |index: int| ascii_title_char(name, index))
}

/// What `str::to_lowercase` returns for a text.
pub uninterp spec fn unicode_lowercase(text: Seq<char>) -> Seq<char>;

/// What `char::to_uppercase` yields for a character, as a text.
pub uninterp spec fn unicode_uppercase(c: char) -> Seq<char>;

/// Title case by the standard library's case mapping: the text lowered, then its first
/// character replaced by its uppercase form.
pub open spec fn unicode_title(name: Seq<char>) -> Seq<char> {
    let lower = unicode_lowercase(name);
    if lower.len() == 0 {
        lower
    } else {
        unicode_uppercase(lower[0]) + lower.subrange(1, lower.len() as int)
    }
}

/// The name of the facade's level for a level as it is written in an annotation.
pub open spec fn level_name(name: Seq<char>) -> Seq<char> {
    if vstd::utf8::is_ascii_chars(name) {
        ascii_title(name)
    } else {
        unicode_title(name)
    }
}

/// Calls `str::to_lowercase`. The contract gives the result its name and claims no more
/// of it.
#[verifier::external_body]
fn to_lowercase(text: &str) -> (lower: String)
    ensures
        lower@ == unicode_lowercase(text@),
{
    text.to_lowercase()
}

/// Calls `char::to_uppercase` and collects the characters it yields. The contract gives
/// the result its name and claims no more of it.
#[verifier::external_body]
fn to_uppercase(c: char) -> (upper: String)
    ensures
        upper@ == unicode_uppercase(c),
{
    c.to_uppercase().collect()
}

fn lower_ascii_char(c: char) -> (lower: char)
    ensures
        lower == ascii_lower(c),
{
    if 'A' <= c && c <= 'Z' {
        ((c as u8) + 32) as char
    } else {
        c
    }
}

fn upper_ascii_char(c: char) -> (upper: char)
    ensures
        upper == ascii_upper(c),
{
    if 'a' <= c && c <= 'z' {
        ((c as u8) - 32) as char
    } else {
        c
    }
}

fn title_ascii(name: &str) -> (title: String)
    ensures
        title@ == ascii_title(name@),
{
    let len = name.unicode_len();
    let mut title = String::new();
    let mut i: usize = 0;
    while i < len
        invariant
            len == name@.len(),
            i <= len,
            title@ == ascii_title(name@).take(i as int),
        decreases len - i,
    {
        let lower = lower_ascii_char(name.get_char(i));
        let c = if i == 0 {
            upper_ascii_char(lower)
        } else {
            lower
        };
        push_char(&mut title, c);
        assert(title@ =~= ascii_title(name@).take(i + 1));
        i += 1;
    }
    assert(ascii_title(name@).take(len as int) =~= ascii_title(name@));
    title
}

fn title_unicode(name: &str) -> (title: String)
    ensures
        title@ == unicode_title(name@),
{
    let lower = to_lowercase(name);
    let len = lower.as_str().unicode_len();
    if len == 0 {
        lower
    } else {
        let mut title = to_uppercase(lower.as_str().get_char(0));
        title.append(lower.as_str().substring_char(1, len));
        title
    }
}

/// The name of the facade's level for a level as it is written in an annotation:
/// `INFO`, `info` and `Info` all give `Info`.
pub fn get_logger_token(att: &str) -> (token: String)
    ensures
        token@ == level_name(att@),
{
    if att.is_ascii() {
        title_ascii(att)
    } else {
        title_unicode(att)
    }
}

/// A level is read without regard to the case of its ASCII letters: two names of ASCII
/// characters that differ in case alone come out under one name.
pub proof fn lemma_level_name_ignores_case(a: Seq<char>, b: Seq<char>)
    requires
        vstd::utf8::is_ascii_chars(a),
        vstd::utf8::is_ascii_chars(b),
        a.len() == b.len(),
        forall|i: int| 0 <= i < a.len() ==> ascii_lower(a[i]) == ascii_lower(b[i]),
    ensures
        level_name(a) == level_name(b),
{
    assert(ascii_title(a) =~= ascii_title(b));
}

/// The five levels of the facade, however they are written in ASCII letters, come out
/// under the facade's names.
pub proof fn lemma_level_names()
    ensures
        level_name("error"@) == "Error"@,
        level_name("warn"@) == "Warn"@,
        level_name("info"@) == "Info"@,
        level_name("debug"@) == "Debug"@,
        level_name("trace"@) == "Trace"@,
        level_name("ERROR"@) == "Error"@,
        level_name("WARN"@) == "Warn"@,
        level_name("INFO"@) == "Info"@,
        level_name("DEBUG"@) == "Debug"@,
        level_name("TRACE"@) == "Trace"@,
        level_name("Error"@) == "Error"@,
        level_name("Warn"@) == "Warn"@,
        level_name("Info"@) == "Info"@,
        level_name("Debug"@) == "Debug"@,
        level_name("Trace"@) == "Trace"@,
{
    reveal_strlit("error");
    reveal_strlit("warn");
    reveal_strlit("info");
    reveal_strlit("debug");
    reveal_strlit("trace");
    reveal_strlit("ERROR");
    reveal_strlit("WARN");
    reveal_strlit("INFO");
    reveal_strlit("DEBUG");
    reveal_strlit("TRACE");
    reveal_strlit("Error");
    reveal_strlit("Warn");
    reveal_strlit("Info");
    reveal_strlit("Debug");
    reveal_strlit("Trace");
    assert(level_name("error"@) =~= "Error"@);
    assert(level_name("warn"@) =~= "Warn"@);
    assert(level_name("info"@) =~= "Info"@);
    assert(level_name("debug"@) =~= "Debug"@);
    assert(level_name("trace"@) =~= "Trace"@);
    assert(level_name("ERROR"@) =~= "Error"@);
    assert(level_name("WARN"@) =~= "Warn"@);
    assert(level_name("INFO"@) =~= "Info"@);
    assert(level_name("DEBUG"@) =~= "Debug"@);
    assert(level_name("TRACE"@) =~= "Trace"@);
    assert(level_name("Error"@) =~= "Error"@);
    assert(level_name("Warn"@) =~= "Warn"@);
    assert(level_name("Info"@) =~= "Info"@);
    assert(level_name("Debug"@) =~= "Debug"@);
    assert(level_name("Trace"@) =~= "Trace"@);
}

} // verus!
