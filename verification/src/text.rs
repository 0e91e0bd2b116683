//! Text helpers shared by the validator and the emitter: exported identifiers,
//! their upper-case form, and joining pieces of source text.

use vstd::prelude::*;
use vstd::string::StringExecFns;

verus! {

/// `c` is an ASCII letter.
pub open spec fn is_ascii_letter(c: char) -> bool {
    ('a' <= c && c <= 'z') || ('A' <= c && c <= 'Z')
}

/// `c` is an ASCII digit.
pub open spec fn is_ascii_digit(c: char) -> bool {
    '0' <= c && c <= '9'
}

/// `c` may stand at the start of an exported identifier.
pub open spec fn is_identifier_start(c: char) -> bool {
    is_ascii_letter(c) || c == '_'
}

/// `c` may stand anywhere in an exported identifier.
pub open spec fn is_identifier_part(c: char) -> bool {
    is_identifier_start(c) || is_ascii_digit(c)
}

/// An exported identifier has the shape of a C identifier: a non-empty run of
/// ASCII letters, digits and underscores that does not start with a digit.
pub open spec fn is_exported_identifier(s: Seq<char>) -> bool {
    &&& s.len() > 0
    &&& is_identifier_start(s[0])
    &&& forall|i: int| 0 <= i < s.len() ==> is_identifier_part(#[trigger] s[i])
}

/// The upper-case form of one character: `a` to `z` map to `A` to `Z`, every
/// other character to itself.
pub open spec fn ascii_upper(c: char) -> char {
    if 'a' <= c && c <= 'z' {
        ((c as u8) - 32) as char
    } else {
        c
    }
}

/// The upper-case form of a text, character by character.
pub open spec fn ascii_uppercase(s: Seq<char>) -> Seq<char> {
    s.map_values(|c: char| ascii_upper(c))
}

/// The items of `items` in order, with `separator` between neighbours.
pub open spec fn joined(items: Seq<Seq<char>>, separator: Seq<char>) -> Seq<char>
    decreases items.len(),
{
    if items.len() == 0 {
        Seq::empty()
    } else if items.len() == 1 {
        items[0]
    } else {
        joined(items.drop_last(), separator) + separator + items.last()
    }
}

/// The texts that a vector of strings holds.
pub open spec fn texts(items: Seq<String>) -> Seq<Seq<char>> {
    items.map_values(|s: String| s@)
}

/// The text that an optional string holds, if it holds one.
pub open spec fn optional_text(text: Option<String>) -> Option<Seq<char>> {
    match text {
        Some(s) => Some(s@),
        None => None,
    }
}

/// `String::push`: the text grows by exactly the character `c` at its end.
#[verifier::external_body]
pub(crate) fn push_char(text: &mut String, c: char)
    ensures
        final(text)@ == old(text)@.push(c),
{
    text.push(c);
}

fn is_identifier_start_char(c: char) -> (b: bool)
    ensures
        b == is_identifier_start(c),
{
    ('a' <= c && c <= 'z') || ('A' <= c && c <= 'Z') || c == '_'
}

fn is_identifier_part_char(c: char) -> (b: bool)
    ensures
        b == is_identifier_part(c),
{
    is_identifier_start_char(c) || ('0' <= c && c <= '9')
}

fn upper_char(c: char) -> (u: char)
    ensures
        u == ascii_upper(c),
{
    if 'a' <= c && c <= 'z' {
        ((c as u8) - 32) as char
    } else {
        c
    }
}

/// Decides whether `s` is an exported identifier.
pub fn is_identifier(s: &str) -> (valid: bool)
    ensures
        valid == is_exported_identifier(s@),
{
    let mut seen_any = false;
    let mut valid = true;
    for c in it: s.chars()
        invariant
            it.seq() == s@,
            seen_any == (it.index() > 0),
            valid == ((it.index() > 0 ==> is_identifier_start(s@[0])) && forall|i: int|
                0 <= i < it.index() ==> is_identifier_part(#[trigger] s@[i])),
    {
        if !seen_any {
            valid = is_identifier_start_char(c);
            seen_any = true;
        } else if !is_identifier_part_char(c) {
            valid = false;
        }
    }
    seen_any && valid
}

/// The upper-case form of `s`.
pub fn uppercase(s: &str) -> (upper: String)
    ensures
        upper@ == ascii_uppercase(s@),
{
    let mut upper = String::new();
    for c in it: s.chars()
        invariant
            it.seq() == s@,
            upper@ == ascii_uppercase(s@.take(it.index() as int)),
    {
        assert(s@.take(it.index() + 1) == s@.take(it.index() as int).push(c));
        push_char(&mut upper, upper_char(c));
    }
    assert(s@.take(s@.len() as int) == s@);
    upper
}

/// Joins `items` with `separator` between neighbours.
pub fn join(items: &Vec<String>, separator: &str) -> (text: String)
    ensures
        text@ == joined(texts(items@), separator@),
{
    let mut text = String::new();
    let mut i: usize = 0;
    while i < items.len()
        invariant
            i <= items.len(),
            text@ == joined(texts(items@).take(i as int), separator@),
        decreases items.len() - i,
    {
        proof {
            let before = texts(items@).take(i as int);
            let after = texts(items@).take(i + 1);
            assert(after.drop_last() == before);
            assert(after.last() == items@[i as int]@);
        }
        if i > 0 {
            text.append(separator);
        }
        text.append(items[i].as_str());
        i += 1;
    }
    assert(texts(items@).take(items.len() as int) == texts(items@));
    text
}

} // verus!
