//! Whitespace, and text with the whitespace taken out.

use vstd::prelude::*;

verus! {

/// Whether `c` is whitespace: one of the characters with the Unicode
/// property `White_Space`.
pub open spec fn is_whitespace(c: char) -> bool {
    ||| '\u{0009}' <= c <= '\u{000D}'
    ||| c == '\u{0020}'
    ||| c == '\u{0085}'
    ||| c == '\u{00A0}'
    ||| c == '\u{1680}'
    ||| '\u{2000}' <= c <= '\u{200A}'
    ||| c == '\u{2028}'
    ||| c == '\u{2029}'
    ||| c == '\u{202F}'
    ||| c == '\u{205F}'
    ||| c == '\u{3000}'
}

/// The text `s` without its whitespace: what is left keeps its order.
pub open spec fn strip_whitespace(s: Seq<char>) -> Seq<char> {
    s.filter(|c: char| !is_whitespace(c))
}

/// `String::push`: the string grows by the one character `c` at its end.
#[verifier::external_body]
fn push_char(text: &mut String, c: char)
    ensures
        final(text)@ == old(text)@.push(c),
{
    text.push(c)
}

/// Tells whether `c` is whitespace.
pub fn is_whitespace_char(c: char) -> (answer: bool)
    ensures
        answer == is_whitespace(c),
{
    ('\u{0009}' <= c && c <= '\u{000D}') || c == '\u{0020}' || c == '\u{0085}' || c == '\u{00A0}'
        || c == '\u{1680}' || ('\u{2000}' <= c && c <= '\u{200A}') || c == '\u{2028}' || c
        == '\u{2029}' || c == '\u{202F}' || c == '\u{205F}' || c == '\u{3000}'
}

/// Copies `input` without its whitespace.
pub fn remove_whitespace(input: &str) -> (stripped: String)
    ensures
        stripped@ == strip_whitespace(input@),
{
    let mut stripped = String::new();
    for c in it: input.chars()
        invariant
            it.seq() == input@,
            stripped@ == strip_whitespace(input@.take(it.index())),
    {
        proof {
            let before = input@.take(it.index());
            assert(input@.take(it.index() + 1) == before.push(c));
            assert(before.push(c).drop_last() == before);
            reveal(Seq::filter);
        }
        if !is_whitespace_char(c) {
            push_char(&mut stripped, c);
        }
    }
    proof {
        assert(input@.take(input@.len() as int) == input@);
    }
    stripped
}

} // verus!
