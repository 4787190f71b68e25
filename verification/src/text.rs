//! Text helpers shared by the generator and the output builder.

use vstd::prelude::*;
use vstd::string::*;

verus! {

/// `String::push` appends one character to the end of the string.
pub assume_specification[ String::push ](s: &mut String, ch: char)
    ensures
        final(s)@ == old(s)@.push(ch),
;

/// Whether two texts are the same.
pub fn same_text(a: &str, b: &str) -> (same: bool)
    ensures
        same == (a@ == b@),
{
    String::from_str(a) == String::from_str(b)
}

/// Whether `path` is the identifier `word`.
pub fn is_word(path: &Option<String>, word: &str) -> (same: bool)
    ensures
        same == (path.deep_view() == Some(word@)),
{
    match path {
        Some(ident) => same_text(ident.as_str(), word),
        None => false,
    }
}

/// A copy of `text`.
pub fn copy_text(text: &String) -> (out: String)
    ensures
        out@ == text@,
{
    text.clone()
}

/// A copy of `text`, where there is one.
pub fn copy_optional_text(text: &Option<String>) -> (out: Option<String>)
    ensures
        out.deep_view() == text.deep_view(),
{
    match text {
        Some(text) => Some(copy_text(text)),
        None => None,
    }
}

pub open spec fn margin() -> Seq<char> {
    seq![' ', ' ', ' ', ' ']
}

/// The text written through an indenting writer that starts at the beginning
/// of a line: a margin of four spaces goes in front of every character that
/// starts a line.
pub open spec fn indented(s: Seq<char>) -> Seq<char>
    decreases s.len(),
{
    if s.len() == 0 {
        s
    } else {
        let front = s.drop_last();
        let pad = if front.len() == 0 || front.last() == '\n' {
            margin()
        } else {
            Seq::<char>::empty()
        };
        indented(front) + pad + seq![s.last()]
    }
}

pub fn indent(text: &str) -> (out: String)
    ensures
        out@ == indented(text@),
{
    let mut out = String::new();
    let mut fresh = true;
    for c in it: text.chars()
        invariant
            it.seq() == text@,
            fresh == (it.index() == 0 || text@[it.index() - 1] == '\n'),
            out@ == indented(text@.take(it.index() as int)),
    {
        if fresh {
            proof {
                reveal_strlit("    ");
            }
            out.append("    ");
        }
        out.push(c);
        fresh = c == '\n';
        proof {
            let upto = text@.take(it.index() + 1);
            assert(upto.drop_last() == text@.take(it.index() as int));
        }
    }
    proof {
        assert(text@.take(text@.len() as int) == text@);
    }
    out
}

} // verus!
