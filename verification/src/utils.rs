//! Quoting of free text for use as a DOT string.

use vstd::prelude::*;

verus! {

/// Whether a character is one of the three that escaping changes.
pub open spec fn needs_escape(c: char) -> bool {
    c == '"' || c == '\\' || c == '\n'
}

/// What one character of free text becomes inside a quoted DOT string: a
/// double quote, a backslash and a line feed are each preceded by a
/// backslash, and every other character stands for itself.
pub open spec fn escape_char(c: char) -> Seq<char> {
    if needs_escape(c) {
        seq!['\\', c]
    } else {
        seq![c]
    }
}

/// The escaped form of a text: the escaped forms of its characters, in order.
pub open spec fn escape(text: Seq<char>) -> Seq<char>
    decreases text.len(),
{
    if text.len() == 0 {
        Seq::empty()
    } else {
        escape(text.drop_last()) + escape_char(text.last())
    }
}

/// The quoted form of a text: its escaped form between two double quotes.
pub open spec fn quoted(text: Seq<char>) -> Seq<char> {
    seq!['"'] + escape(text) + seq!['"']
}

/// Taken on trust from the standard library: `String::push` appends the given
/// character to the end of the string and leaves what was there before
/// unchanged.
pub assume_specification[ String::push ](s: &mut String, ch: char)
    ensures
        final(s)@ == old(s)@.push(ch),
;

/// Wraps `s` in double quotes, escaping what would otherwise end the quoted
/// string early or be read as an escape: the result is `quoted(s@)`.
pub fn quote_string(s: String) -> (out: String)
    ensures
        out@ == quoted(s@),
{
    broadcast use vstd::string::axiom_spec_iter;

    let mut out = String::new();
    out.push('"');
    let chars = s.as_str().chars();
    for c in it: chars
        invariant
            it.seq() == s@,
            out@ == seq!['"'] + escape(s@.take(it.index())),
    {
        assert(s@.take(it.index() + 1).drop_last() == s@.take(it.index()));
        if c == '"' || c == '\\' || c == '\n' {
            out.push('\\');
        }
        out.push(c);
    }
    assert(s@.take(s@.len() as int) == s@);
    out.push('"');
    out
}

/// Reads an escaped text back: a backslash gives the character that follows
/// it, whatever it is, and any other character gives itself. There is no
/// reading if a double quote stands unescaped or if the text ends in the
/// middle of an escape.
pub open spec fn unescape(text: Seq<char>) -> Option<Seq<char>>
    decreases text.len(),
{
    if text.len() == 0 {
        Some(Seq::empty())
    } else if text[0] == '\\' {
        if text.len() < 2 {
            None
        } else {
            match unescape(text.skip(2)) {
                Some(rest) => Some(seq![text[1]] + rest),
                None => None,
            }
        }
    } else if text[0] == '"' {
        None
    } else {
        match unescape(text.skip(1)) {
            Some(rest) => Some(seq![text[0]] + rest),
            None => None,
        }
    }
}

/// Reads a quoted text back: it has to start and end with a double quote,
/// and what stands between them is read by [`unescape`].
pub open spec fn unquoted(text: Seq<char>) -> Option<Seq<char>> {
    if text.len() >= 2 && text[0] == '"' && text.last() == '"' {
        unescape(text.subrange(1, text.len() - 1))
    } else {
        None
    }
}

/// Escaping goes character by character: the escaped form of two texts put
/// together is their escaped forms put together.
pub proof fn lemma_escape_concat(a: Seq<char>, b: Seq<char>)
    ensures
        escape(a + b) == escape(a) + escape(b),
    decreases b.len(),
{
    if b.len() == 0 {
        assert(a + b == a);
    } else {
        assert((a + b).drop_last() == a + b.drop_last());
        lemma_escape_concat(a, b.drop_last());
    }
}

/// Reading back what was escaped gives the text one started from. So an
/// escaped text holds no double quote that could end a quoted string early,
/// and two different texts never have the same escaped form.
pub proof fn lemma_escape_round_trip(text: Seq<char>)
    ensures
        unescape(escape(text)) == Some(text),
    decreases text.len(),
{
    if text.len() > 0 {
        let first = text[0];
        let rest = text.drop_first();
        assert(text == seq![first] + rest);
        assert(escape(seq![first]) == escape_char(first)) by {
            reveal_with_fuel(escape, 2);
            assert(seq![first].drop_last() == Seq::<char>::empty());
        }
        lemma_escape_concat(seq![first], rest);
        lemma_escape_round_trip(rest);
        let escaped = escape(text);
        if needs_escape(first) {
            assert(escaped.skip(2) == escape(rest));
        } else {
            assert(escaped.skip(1) == escape(rest));
        }
    }
}

/// Reading back what was quoted gives the text one started from: the quoted
/// form is a balanced quoted string, whatever the text holds.
pub proof fn lemma_quote_round_trip(text: Seq<char>)
    ensures
        unquoted(quoted(text)) == Some(text),
{
    let whole = quoted(text);
    assert(whole.subrange(1, whole.len() - 1) == escape(text));
    lemma_escape_round_trip(text);
}

/// Every double quote of an escaped text stands right after a backslash.
pub proof fn lemma_escaped_quotes(text: Seq<char>, i: int)
    requires
        0 <= i < escape(text).len(),
        escape(text)[i] == '"',
    ensures
        i > 0,
        escape(text)[i - 1] == '\\',
    decreases text.len(),
{
    if text.len() > 0 {
        let before = escape(text.drop_last());
        if i < before.len() {
            lemma_escaped_quotes(text.drop_last(), i);
        }
    }
}

/// A text in which nothing needs escaping is its own escaped form, so that
/// quoting it only puts it between double quotes.
pub proof fn lemma_plain_text(text: Seq<char>)
    requires
        forall|i: int| 0 <= i < text.len() ==> !needs_escape(#[trigger] text[i]),
    ensures
        escape(text) == text,
        quoted(text) == seq!['"'] + text + seq!['"'],
    decreases text.len(),
{
    if text.len() > 0 {
        lemma_plain_text(text.drop_last());
        assert(text.drop_last() + seq![text.last()] == text);
    }
}

} // verus!
