//! Operations on text that the rest of the crate builds on: case mapping,
//! substring search and trimming.

use vstd::prelude::*;

verus! {

/// The lowercase form of a text under the Unicode case mapping.
pub uninterp spec fn lowercase(text: Seq<char>) -> Seq<char>;

/// The uppercase form of a text under the Unicode case mapping.
pub uninterp spec fn uppercase(text: Seq<char>) -> Seq<char>;

/// Whether a character has the Unicode property `White_Space`.
pub uninterp spec fn whitespace(c: char) -> bool;

/// Lowercases a text.
///
/// Calls `str::to_lowercase`. The Unicode case mapping is not written out
/// here: the contract only gives the result the name [`lowercase`].
#[verifier::external_body]
pub(crate) fn to_lowercase(text: &str) -> (lowered: String)
    ensures
        lowered@ == lowercase(text@),
{
    text.to_lowercase()
}

/// Uppercases a text.
///
/// Calls `str::to_uppercase`. The Unicode case mapping is not written out
/// here: the contract only gives the result the name [`uppercase`].
#[verifier::external_body]
pub(crate) fn to_uppercase(text: &str) -> (raised: String)
    ensures
        raised@ == uppercase(text@),
{
    text.to_uppercase()
}

/// Tells whether a character is white space.
///
/// Calls `char::is_whitespace`. The set of white-space characters is not
/// written out here: the contract only gives the answer the name
/// [`whitespace`].
#[verifier::external_body]
pub(crate) fn is_whitespace(c: char) -> (blank: bool)
    ensures
        blank == whitespace(c),
{
    c.is_whitespace()
}

/// `needle` stands in `haystack` at position `start`.
pub open spec fn occurs_at(needle: Seq<char>, haystack: Seq<char>, start: int) -> bool {
    &&& 0 <= start
    &&& start + needle.len() <= haystack.len()
    &&& haystack.subrange(start, start + needle.len()) == needle
}

/// `needle` is a contiguous part of `haystack`. The empty text is part of
/// every text.
pub open spec fn is_substring(needle: Seq<char>, haystack: Seq<char>) -> bool {
    exists|start: int| occurs_at(needle, haystack, start)
}

/// The characters of a text, in order.
pub fn chars_of(text: &str) -> (chars: Vec<char>)
    ensures
        chars@ == text@,
{
    let mut chars: Vec<char> = Vec::new();
    for c in it: text.chars()
        invariant
            it.seq() == text@,
            chars@ == text@.take(it.index() as int),
    {
        chars.push(c);
    }
    chars
}

/// Compares `needle` with the part of `haystack` that begins at `start`.
fn matches_at(haystack: &Vec<char>, needle: &Vec<char>, start: usize) -> (found: bool)
    requires
        start + needle.len() <= haystack.len(),
    ensures
        found == occurs_at(needle@, haystack@, start as int),
{
    let ghost window = haystack@.subrange(start as int, start + needle@.len());
    let mut i: usize = 0;
    while i < needle.len()
        invariant
            i <= needle.len(),
            start + needle.len() <= haystack.len(),
            window == haystack@.subrange(start as int, start + needle@.len()),
            forall|j: int| 0 <= j < i ==> window[j] == needle@[j],
        decreases needle.len() - i,
    {
        if haystack[start + i] != needle[i] {
            assert(window[i as int] != needle@[i as int]);
            return false;
        }
        i += 1;
    }
    assert(window =~= needle@);
    true
}

/// Searches `haystack` for `needle`, both given as characters.
pub fn contains_chars(haystack: &Vec<char>, needle: &Vec<char>) -> (found: bool)
    ensures
        found == is_substring(needle@, haystack@),
{
    if needle.len() > haystack.len() {
        return false;
    }
    let last: usize = haystack.len() - needle.len();
    let mut start: usize = 0;
    loop
        invariant
            last == haystack.len() - needle.len(),
            start <= last,
            forall|earlier: int| 0 <= earlier < start ==> !occurs_at(needle@, haystack@, earlier),
        decreases last - start,
    {
        if matches_at(haystack, needle, start) {
            return true;
        }
        if start == last {
            return false;
        }
        start += 1;
    }
}

/// Tells whether `needle` is a contiguous part of `haystack`.
pub fn contains(haystack: &str, needle: &str) -> (found: bool)
    ensures
        found == is_substring(needle@, haystack@),
{
    let hay = chars_of(haystack);
    let pattern = chars_of(needle);
    contains_chars(&hay, &pattern)
}

/// A text without the white space at its front.
pub open spec fn trimmed_start(text: Seq<char>) -> Seq<char>
    decreases text.len(),
{
    if text.len() > 0 && whitespace(text.first()) {
        trimmed_start(text.drop_first())
    } else {
        text
    }
}

/// A text without the white space at its back.
pub open spec fn trimmed_end(text: Seq<char>) -> Seq<char>
    decreases text.len(),
{
    if text.len() > 0 && whitespace(text.last()) {
        trimmed_end(text.drop_last())
    } else {
        text
    }
}

/// A text without the white space at its front and at its back.
pub open spec fn trimmed(text: Seq<char>) -> Seq<char> {
    trimmed_end(trimmed_start(text))
}

/// Removes the white space at the front and at the back of a text.
pub fn trim(text: &str) -> (kept: &str)
    ensures
        kept@ == trimmed(text@),
{
    let chars = chars_of(text);
    let mut start: usize = 0;
    assert(chars@.skip(0) == chars@);
    while start < chars.len() && is_whitespace(chars[start])
        invariant
            start <= chars.len(),
            trimmed_start(chars@) == trimmed_start(chars@.skip(start as int)),
        decreases chars.len() - start,
    {
        assert(chars@.skip(start as int).drop_first() == chars@.skip(start + 1));
        start += 1;
    }
    let ghost rest = chars@.skip(start as int);
    let mut end: usize = chars.len();
    assert(rest.take(end - start) == rest);
    while end > start && is_whitespace(chars[end - 1])
        invariant
            start <= end <= chars.len(),
            rest == chars@.skip(start as int),
            trimmed_end(rest) == trimmed_end(rest.take(end - start)),
        decreases end,
    {
        assert(rest.take(end - start).drop_last() == rest.take(end - start - 1));
        end -= 1;
    }
    assert(rest.take(end - start) == chars@.subrange(start as int, end as int));
    text.substring_char(start, end)
}

} // verus!
