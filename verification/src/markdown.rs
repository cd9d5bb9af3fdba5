//! Escaping of text for Telegram's MarkdownV2 formatting.

use vstd::prelude::*;
use crate::text::to_chars;

verus! {

/// Whether MarkdownV2 reserves `c`, so that a literal `c` needs a backslash before it.
pub open spec fn is_reserved(c: char) -> bool {
    c == '_' || c == '*' || c == '[' || c == ']' || c == '(' || c == ')' || c == '~' || c == '`'
        || c == '>' || c == '#' || c == '+' || c == '-' || c == '=' || c == '|' || c == '{'
        || c == '}' || c == '.' || c == '!'
}

/// Exec counterpart of [`is_reserved`].
pub fn is_reserved_char(c: char) -> (r: bool)
    ensures
        r == is_reserved(c),
{
    c == '_' || c == '*' || c == '[' || c == ']' || c == '(' || c == ')' || c == '~' || c == '`'
        || c == '>' || c == '#' || c == '+' || c == '-' || c == '=' || c == '|' || c == '{'
        || c == '}' || c == '.' || c == '!'
}

/// What one character becomes: itself, behind a backslash where it is reserved.
pub open spec fn escaped_char(c: char) -> Seq<char> {
    if is_reserved(c) {
        seq!['\\', c]
    } else {
        seq![c]
    }
}

/// `s` with a backslash before each reserved character.
pub open spec fn escaped(s: Seq<char>) -> Seq<char>
    decreases s.len(),
{
    if s.len() == 0 {
        Seq::empty()
    } else {
        escaped(s.drop_last()) + escaped_char(s.last())
    }
}

/// In escaped text no reserved character stands bare: each one follows a backslash.
pub proof fn lemma_escaped_is_safe(s: Seq<char>, i: int)
    requires
        0 <= i < escaped(s).len(),
        is_reserved(escaped(s)[i]),
    ensures
        i > 0,
        escaped(s)[i - 1] == '\\',
    decreases s.len(),
{
    let head = escaped(s.drop_last());
    if i < head.len() {
        lemma_escaped_is_safe(s.drop_last(), i);
    }
}

/// `text` made safe for a MarkdownV2 message: each of
/// ``_ * [ ] ( ) ~ ` > # + - = | { } . !`` gets a backslash before it, everything else stays.
pub fn escape_markdown_v2(text: &str) -> (r: String)
    ensures
        r@ == escaped(text@),
{
    let v = to_chars(text);
    let mut out = String::new();
    let mut i: usize = 0;
    while i < v.len()
        invariant
            i <= v.len(),
            out@ == escaped(v@.take(i as int)),
        decreases v.len() - i,
    {
        let c = v[i];
        proof {
            let next = v@.take(i + 1);
            assert(next.drop_last() == v@.take(i as int));
            assert(next.last() == c);
        }
        if is_reserved_char(c) {
            out.push('\\');
            out.push(c);
            assert(out@ == escaped(v@.take(i as int)) + seq!['\\', c]);
        } else {
            out.push(c);
            assert(out@ == escaped(v@.take(i as int)) + seq![c]);
        }
        i += 1;
    }
    assert(v@.take(v.len() as int) == v@);
    out
}

} // verus!
