//! Escaping of free text for a command line that interprets backslashes and
//! quotes.

use vstd::prelude::*;
use vstd::string::*;

verus! {

/// What stands for one character in escaped text: a backslash and a letter or
/// mark for the eight characters that need it, the character itself otherwise.
pub open spec fn escape_char(c: char) -> Seq<char> {
    if c == '\\' {
        seq!['\\', '\\']
    } else if c == '"' {
        seq!['\\', '"']
    } else if c == '\n' {
        seq!['\\', 'n']
    } else if c == '\r' {
        seq!['\\', 'r']
    } else if c == '\t' {
        seq!['\\', 't']
    } else if c == '\x08' {
        seq!['\\', 'b']
    } else if c == '\x0C' {
        seq!['\\', 'f']
    } else if c == '\'' {
        seq!['\\', '\'']
    } else {
        seq![c]
    }
}

/// The escaped form of a text: the escaped forms of its characters, in order.
pub open spec fn escaped(text: Seq<char>) -> Seq<char>
    decreases text.len(),
{
    if text.len() == 0 {
        Seq::empty()
    } else {
        escaped(text.drop_last()) + escape_char(text.last())
    }
}

/// Escaping distributes over concatenation.
pub proof fn lemma_escaped_concat(a: Seq<char>, b: Seq<char>)
    ensures
        escaped(a + b) == escaped(a) + escaped(b),
    decreases b.len(),
{
    if b.len() == 0 {
        assert(a + b =~= a);
        assert(escaped(a) + escaped(b) =~= escaped(a));
    } else {
        assert((a + b).drop_last() =~= a + b.drop_last());
        assert((a + b).last() == b.last());
        lemma_escaped_concat(a, b.drop_last());
        assert(escaped(a + b) =~= escaped(a) + escaped(b));
    }
}

/// Escaping never shortens a text, and at most doubles it.
pub proof fn lemma_escaped_len(text: Seq<char>)
    ensures
        text.len() <= escaped(text).len() <= 2 * text.len(),
    decreases text.len(),
{
    if text.len() > 0 {
        lemma_escaped_len(text.drop_last());
    }
}

/// Escapes backslash, double quote, newline, carriage return, tab, backspace,
/// form feed and single quote in `prompt`, for a command line that would
/// otherwise interpret them.
pub fn windows_escape(prompt: &str) -> (text: String)
    ensures
        text@ == escaped(prompt@),
{
    let mut text = String::new();
    for c in it: prompt.chars()
        invariant
            it.seq() == prompt@,
            text@ == escaped(prompt@.take(it.index() as int)),
    {
        proof {
            let before = prompt@.take(it.index() as int);
            let after = prompt@.take(it.index() + 1);
            assert(after.drop_last() =~= before);
            assert(after.last() == c);
        }
        if c == '\\' {
            text.push('\\');
            text.push('\\');
        } else if c == '"' {
            text.push('\\');
            text.push('"');
        } else if c == '\n' {
            text.push('\\');
            text.push('n');
        } else if c == '\r' {
            text.push('\\');
            text.push('r');
        } else if c == '\t' {
            text.push('\\');
            text.push('t');
        } else if c == '\x08' {
            text.push('\\');
            text.push('b');
        } else if c == '\x0C' {
            text.push('\\');
            text.push('f');
        } else if c == '\'' {
            text.push('\\');
            text.push('\'');
        } else {
            text.push(c);
        }
        assert(text@ =~= escaped(prompt@.take(it.index() + 1)));
    }
    assert(prompt@.take(prompt@.len() as int) =~= prompt@);
    text
}

} // verus!
