//! Text as sequences of characters: the small operations on names, file names
//! and templates that the rest of the library is built from.

use vstd::prelude::*;

verus! {

/// The characters of `s`, in order.
pub fn chars_of(s: &str) -> (r: Vec<char>)
    ensures
        r@ == s@,
{
    let mut out: Vec<char> = Vec::new();
    for c in it: s.chars()
        invariant
            it.seq() == s@,
            out@ == s@.take(it.index()),
    {
        out.push(c);
    }
    out
}

/// `String`'s `FromIterator<&char>`, fed with the characters of `chars` in
/// order: the string that consists of exactly those characters.
#[verifier::external_body]
pub(crate) fn string_of(chars: &Vec<char>) -> (r: String)
    ensures
        r@ == chars@,
{
    chars.iter().collect()
}

/// Appends the characters of `tail` to `out`.
pub fn push_chars(out: &mut Vec<char>, tail: &Vec<char>)
    ensures
        final(out)@ == old(out)@ + tail@,
{
    let mut i: usize = 0;
    while i < tail.len()
        invariant
            i <= tail.len(),
            out@ == old(out)@ + tail@.take(i as int),
        decreases tail.len() - i,
    {
        out.push(tail[i]);
        i += 1;
    }
}

/// Appends the characters of `tail` to `out`.
pub fn push_text(out: &mut Vec<char>, tail: &str)
    ensures
        final(out)@ == old(out)@ + tail@,
{
    let chars = chars_of(tail);
    push_chars(out, &chars);
}

/// `a` followed by `b`.
pub fn joined(a: &str, b: &str) -> (r: String)
    ensures
        r@ == a@ + b@,
{
    let mut out = chars_of(a);
    push_text(&mut out, b);
    string_of(&out)
}

/// `a`, then `b`, then `c`.
pub fn joined3(a: &str, b: &str, c: &str) -> (r: String)
    ensures
        r@ == a@ + b@ + c@,
{
    let mut out = chars_of(a);
    push_text(&mut out, b);
    push_text(&mut out, c);
    string_of(&out)
}

/// An owned copy of `s`.
pub fn owned(s: &str) -> (r: String)
    ensures
        r@ == s@,
{
    string_of(&chars_of(s))
}

/// An owned copy of an optional string.
pub fn owned_option(s: &Option<String>) -> (r: Option<String>)
    ensures
        option_text(r) == option_text(*s),
{
    match s {
        Some(text) => Some(text.clone()),
        None => None,
    }
}

/// The characters of an optional string.
pub open spec fn option_text(s: Option<String>) -> Option<Seq<char>> {
    match s {
        Some(text) => Some(text@),
        None => None,
    }
}

/// The upper-case form of a character, as `char::to_uppercase` of std gives
/// it: the upper-case mapping of Unicode, which is one character or several,
/// and the character itself where it has no such mapping.
pub uninterp spec fn upper_case(c: char) -> Seq<char>;

/// `char::to_uppercase` of `c`, its characters collected in their order.
#[verifier::external_body]
pub(crate) fn to_upper_case(c: char) -> (r: String)
    ensures
        r@ == upper_case(c),
{
    c.to_uppercase().collect()
}

/// `text` with every occurrence of `pattern` replaced by `with`. Occurrences
/// are found from the left and do not overlap. An empty pattern occurs
/// nowhere.
pub open spec fn replace_all(text: Seq<char>, pattern: Seq<char>, with: Seq<char>) -> Seq<char>
    decreases text.len(),
{
    if pattern.len() == 0 || text.len() == 0 {
        text
    } else if pattern.is_prefix_of(text) {
        with + replace_all(text.skip(pattern.len() as int), pattern, with)
    } else {
        seq![text[0]] + replace_all(text.skip(1), pattern, with)
    }
}

/// Whether `pattern` stands in `text` at position `at`.
fn occurs_at(text: &Vec<char>, at: usize, pattern: &Vec<char>) -> (r: bool)
    requires
        at <= text.len(),
    ensures
        r == pattern@.is_prefix_of(text@.skip(at as int)),
{
    if pattern.len() > text.len() - at {
        return false;
    }
    let mut k: usize = 0;
    while k < pattern.len()
        invariant
            at <= text.len(),
            k <= pattern.len() <= text.len() - at,
            forall|j: int| 0 <= j < k ==> pattern@[j] == text@[at + j],
        decreases pattern.len() - k,
    {
        if pattern[k] != text[at + k] {
            return false;
        }
        k += 1;
    }
    true
}

/// Computes [`replace_all`] on the characters of `text`.
pub fn replace(text: &Vec<char>, pattern: &Vec<char>, with: &Vec<char>) -> (r: Vec<char>)
    ensures
        r@ == replace_all(text@, pattern@, with@),
{
    if pattern.len() == 0 {
        let mut same: Vec<char> = Vec::new();
        push_chars(&mut same, text);
        return same;
    }
    let mut out: Vec<char> = Vec::new();
    let mut i: usize = 0;
    assert(text@.skip(0) =~= text@);
    while i < text.len()
        invariant
            i <= text.len(),
            pattern.len() > 0,
            replace_all(text@, pattern@, with@) == out@ + replace_all(
                text@.skip(i as int),
                pattern@,
                with@,
            ),
        decreases text.len() - i,
    {
        let ghost rest = text@.skip(i as int);
        if occurs_at(text, i, pattern) {
            push_chars(&mut out, with);
            assert(rest.skip(pattern@.len() as int) =~= text@.skip(i + pattern@.len()));
            i += pattern.len();
        } else {
            out.push(text[i]);
            assert(rest.skip(1) =~= text@.skip(i + 1));
            i += 1;
        }
    }
    out
}

} // verus!
