//! Text that can be handed to the table printer.

use vstd::prelude::*;

verus! {

/// The escape character, U+001B.
pub open spec fn escape() -> char {
    '\u{1b}'
}

/// Text without an escape character.
///
/// The printer measures every text it is given and takes an escape
/// character for the start of a terminal sequence; on some such texts its
/// measuring aborts. Plain text is always measured.
pub open spec fn is_plain(text: Seq<char>) -> bool {
    forall|i: int| 0 <= i < text.len() ==> text[i] != escape()
}

/// Appending a character keeps text plain exactly when the character is no escape.
pub proof fn lemma_plain_push(text: Seq<char>, c: char)
    ensures
        is_plain(text.push(c)) == (is_plain(text) && c != escape()),
{
    if is_plain(text.push(c)) {
        assert(text.push(c)[text.len() as int] == c);
        assert forall|i: int| 0 <= i < text.len() implies text[i] != escape() by {
            assert(text.push(c)[i] == text[i]);
        }
    }
}

/// Joined texts are plain exactly when both are.
pub proof fn lemma_plain_concat(first: Seq<char>, second: Seq<char>)
    ensures
        is_plain(first + second) == (is_plain(first) && is_plain(second)),
{
    let joined = first + second;
    if is_plain(joined) {
        assert forall|i: int| 0 <= i < first.len() implies first[i] != escape() by {
            assert(joined[i] == first[i]);
        }
        assert forall|i: int| 0 <= i < second.len() implies second[i] != escape() by {
            assert(joined[first.len() + i] == second[i]);
        }
    }
}

/// Whether `text` is free of escape characters.
pub fn is_plain_text(text: &str) -> (plain: bool)
    ensures
        plain == is_plain(text@),
{
    let mut plain = true;
    for c in it: text.chars()
        invariant
            it.seq() == text@,
            plain == is_plain(text@.take(it.index())),
    {
        proof {
            let i = it.index();
            assert(text@.take(i + 1) =~= text@.take(i).push(c));
            lemma_plain_push(text@.take(i), c);
        }
        if c == '\u{1b}' {
            plain = false;
        }
    }
    proof {
        assert(text@.take(text@.len() as int) =~= text@);
    }
    plain
}

} // verus!
