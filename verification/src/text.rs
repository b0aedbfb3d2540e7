//! Text primitives shared by the rest of the crate, stated over sequences of
//! characters.

use vstd::prelude::*;
use vstd::string::*;

verus! {

/// Whether `c` is whitespace in the sense of Unicode's `White_Space`, as
/// `char::is_whitespace` reports it.
pub uninterp spec fn is_white_space(c: char) -> bool;

/// `char::is_whitespace` is a function of the character alone; its result is
/// what [`is_white_space`] names.
pub assume_specification[ char::is_whitespace ](c: char) -> (r: bool)
    ensures
        r == is_white_space(c),
;

/// `str`'s equality compares the two texts character by character.
pub assume_specification[ <str as PartialEq>::eq ](a: &str, b: &str) -> (r: bool)
    ensures
        r == (a@ == b@),
;

/// `String::push` appends one character at the end and changes nothing else.
pub assume_specification[ String::push ](s: &mut String, ch: char)
    ensures
        final(s)@ == old(s)@.push(ch),
;

/// The texts of a sequence of strings, in order.
pub open spec fn texts(strings: Seq<String>) -> Seq<Seq<char>> {
    strings.map_values(|s: String| s@)
}

/// The text of an optional string.
pub open spec fn opt_text(s: Option<String>) -> Option<Seq<char>> {
    match s {
        Some(s) => Some(s@),
        None => None,
    }
}

/// The text of an optional string slice.
pub open spec fn opt_str_text(s: Option<&str>) -> Option<Seq<char>> {
    match s {
        Some(s) => Some(s@),
        None => None,
    }
}

/// A new string that holds `head` followed by `tail`.
pub fn followed_by(head: &str, tail: &str) -> (text: String)
    ensures
        text@ == head@ + tail@,
{
    let mut text = String::new();
    text.append(head);
    text.append(tail);
    assert(text@ =~= head@ + tail@);
    text
}

/// The parts concatenated in order, with `separator` between neighbours.
pub open spec fn joined(parts: Seq<Seq<char>>, separator: Seq<char>) -> Seq<char>
    decreases parts.len(),
{
    if parts.len() == 0 {
        Seq::empty()
    } else if parts.len() == 1 {
        parts[0]
    } else {
        joined(parts.drop_last(), separator) + separator + parts.last()
    }
}

/// Whether `needle` occurs in `haystack` as a contiguous run of characters.
pub open spec fn has_infix(haystack: Seq<char>, needle: Seq<char>) -> bool {
    exists|i: int|
        0 <= i && i + needle.len() <= haystack.len() && #[trigger] haystack.subrange(
            i,
            i + needle.len(),
        ) == needle
}

/// `str::contains` with a string pattern: true exactly when the pattern
/// matches a sub-slice of the text.
#[verifier::external_body]
pub(crate) fn contains_text(haystack: &str, needle: &str) -> (found: bool)
    ensures
        found == has_infix(haystack@, needle@),
{
    haystack.contains(needle)
}

/// The index of the first character of `s` that is not whitespace, or the
/// length of `s` when there is none.
pub open spec fn solid_start(s: Seq<char>) -> int
    decreases s.len(),
{
    if s.len() == 0 || !is_white_space(s.first()) {
        0
    } else {
        1 + solid_start(s.drop_first())
    }
}

/// One past the index of the last character of `s` that is not whitespace, or
/// zero when there is none.
pub open spec fn solid_end(s: Seq<char>) -> int
    decreases s.len(),
{
    if s.len() == 0 || !is_white_space(s.last()) {
        s.len() as int
    } else {
        solid_end(s.drop_last())
    }
}

/// `s` without its leading and trailing whitespace.
pub open spec fn trimmed(s: Seq<char>) -> Seq<char> {
    if solid_start(s) >= solid_end(s) {
        Seq::empty()
    } else {
        s.subrange(solid_start(s), solid_end(s))
    }
}

/// Whether every character of `s` in `[from, to)` is whitespace.
pub open spec fn blank_between(s: Seq<char>, from: int, to: int) -> bool {
    forall|i: int| from <= i < to ==> is_white_space(#[trigger] s[i])
}

/// `solid_start` is the only index that has nothing but whitespace before it
/// and, unless it is the length, a character that is not whitespace at it.
pub proof fn lemma_solid_start_unique(s: Seq<char>, a: int)
    requires
        0 <= a <= s.len(),
        blank_between(s, 0, a),
        a < s.len() ==> !is_white_space(s[a]),
    ensures
        solid_start(s) == a,
    decreases s.len(),
{
    if s.len() == 0 || !is_white_space(s.first()) {
        if a > 0 {
            assert(is_white_space(s[0]));
        }
    } else {
        let rest = s.drop_first();
        assert(a > 0);
        assert forall|i: int| 0 <= i < a - 1 implies is_white_space(#[trigger] rest[i]) by {
            assert(rest[i] == s[i + 1]);
        }
        if a - 1 < rest.len() {
            assert(rest[a - 1] == s[a]);
        }
        lemma_solid_start_unique(rest, a - 1);
    }
}

/// `solid_end` is the only index that has nothing but whitespace from it on
/// and, unless it is zero, a character that is not whitespace just before it.
pub proof fn lemma_solid_end_unique(s: Seq<char>, b: int)
    requires
        0 <= b <= s.len(),
        blank_between(s, b, s.len() as int),
        b > 0 ==> !is_white_space(s[b - 1]),
    ensures
        solid_end(s) == b,
    decreases s.len(),
{
    if s.len() == 0 || !is_white_space(s.last()) {
        if b < s.len() {
            assert(is_white_space(s[s.len() - 1]));
        }
    } else {
        let rest = s.drop_last();
        assert(b < s.len());
        assert forall|i: int| b <= i < rest.len() implies is_white_space(#[trigger] rest[i]) by {
            assert(rest[i] == s[i]);
        }
        if b > 0 {
            assert(rest[b - 1] == s[b - 1]);
        }
        lemma_solid_end_unique(rest, b);
    }
}

/// The text with leading and trailing whitespace removed.
pub fn trim(text: &str) -> (slice: &str)
    ensures
        slice@ == trimmed(text@),
{
    let total: usize = text.unicode_len();
    let mut start: usize = 0;
    let mut end: usize = 0;
    let mut seen: usize = 0;
    let mut solid: bool = false;
    for c in it: text.chars()
        invariant
            it.seq() == text@,
            seen == it.index(),
            total == text@.len(),
            !solid ==> start == 0 && end == 0 && blank_between(text@, 0, seen as int),
            solid ==> start < end <= seen && blank_between(text@, 0, start as int)
                && !is_white_space(text@[start as int]) && !is_white_space(text@[end - 1])
                && blank_between(text@, end as int, seen as int),
    {
        if !c.is_whitespace() {
            if !solid {
                start = seen;
                solid = true;
            }
            end = seen + 1;
        }
        seen = seen + 1;
    }
    proof {
        if solid {
            lemma_solid_start_unique(text@, start as int);
            lemma_solid_end_unique(text@, end as int);
        } else {
            lemma_solid_start_unique(text@, text@.len() as int);
            lemma_solid_end_unique(text@, 0);
        }
    }
    if solid {
        text.substring_char(start, end)
    } else {
        text.substring_char(0, 0)
    }
}

} // verus!
