//! Text primitives: UTF-8 decoding and splitting text into lines.

use vstd::prelude::*;
use vstd::utf8::{decode_utf8, valid_utf8};

verus! {

/// Position of the first `'\n'` in `s`, or `s.len()` when there is none.
pub open spec fn line_end(s: Seq<char>) -> nat
    decreases s.len(),
{
    if s.len() == 0 || s[0] == '\n' {
        0
    } else {
        1 + line_end(s.drop_first())
    }
}

/// A line without the carriage return that preceded its line feed.
pub open spec fn without_cr(line: Seq<char>) -> Seq<char> {
    if line.len() > 0 && line.last() == '\r' {
        line.drop_last()
    } else {
        line
    }
}

/// The lines of a text. A line ends at `"\n"` or `"\r\n"`, and the terminator
/// is not part of it; the last line needs no terminator, and a carriage return
/// that no line feed follows stays in its line.
pub open spec fn lines(s: Seq<char>) -> Seq<Seq<char>>
    decreases s.len(),
{
    let n = line_end(s) as int;
    if s.len() == 0 {
        Seq::empty()
    } else if n >= s.len() {
        seq![s]
    } else {
        seq![without_cr(s.take(n))] + lines(s.skip(n + 1))
    }
}

/// `line_end` is where the text first holds a line feed.
pub proof fn lemma_line_end(s: Seq<char>)
    ensures
        line_end(s) <= s.len(),
        line_end(s) < s.len() ==> s[line_end(s) as int] == '\n',
        forall|i: int| 0 <= i < line_end(s) ==> s[i] != '\n',
    decreases s.len(),
{
    if s.len() != 0 && s[0] != '\n' {
        let tail = s.drop_first();
        lemma_line_end(tail);
        assert forall|i: int| 0 <= i < line_end(s) implies s[i] != '\n' by {
            if i > 0 {
                assert(s[i] == tail[i - 1]);
            }
        }
    }
}

/// A text cut at its first line feed: `line_end` is the length of the part
/// before it.
pub proof fn lemma_line_end_of_split(head: Seq<char>, tail: Seq<char>)
    requires
        !head.contains('\n'),
    ensures
        line_end(head + seq!['\n'] + tail) == head.len(),
    decreases head.len(),
{
    if head.len() > 0 {
        let rest = head.drop_first();
        assert forall|c: char| rest.contains(c) implies head.contains(c) by {
            let i = choose|i: int| 0 <= i < rest.len() && rest[i] == c;
            assert(head[i + 1] == c);
        }
        assert((head + seq!['\n'] + tail).drop_first() =~= rest + seq!['\n'] + tail);
        lemma_line_end_of_split(rest, tail);
    }
}

/// A text without a line feed has `line_end` at its end.
pub proof fn lemma_line_end_of_last(s: Seq<char>)
    requires
        !s.contains('\n'),
    ensures
        line_end(s) == s.len(),
{
    lemma_line_end(s);
}

/// `str::strip_suffix` with a string pattern: the text without `suffix` where
/// it ends with it, `None` where it does not.
#[verifier::external_body]
pub(crate) fn strip_suffix<'a>(text: &'a str, suffix: &str) -> (head: Option<&'a str>)
    ensures
        match head {
            Some(h) => text@ == h@ + suffix@,
            None => !suffix@.is_suffix_of(text@),
        },
{
    text.strip_suffix(suffix)
}

/// `str::split_once` with a `char` pattern: the parts before and after the
/// first occurrence of `delimiter`, `None` where the text does not hold it.
#[verifier::external_body]
pub(crate) fn split_once<'a>(text: &'a str, delimiter: char) -> (parts: Option<(&'a str, &'a str)>)
    ensures
        match parts {
            Some((head, tail)) => text@ == head@ + seq![delimiter] + tail@ && !head@.contains(
                delimiter,
            ),
            None => !text@.contains(delimiter),
        },
{
    text.split_once(delimiter)
}

/// The text that `bytes` encode in UTF-8, if they encode one.
pub open spec fn decoded(bytes: Seq<u8>) -> Option<Seq<char>> {
    if valid_utf8(bytes) {
        Some(decode_utf8(bytes))
    } else {
        None
    }
}

/// `String::from_utf8`: the text that `bytes` encode in UTF-8, `None` where
/// they are not valid UTF-8.
#[verifier::external_body]
pub(crate) fn from_utf8(bytes: Vec<u8>) -> (text: Option<String>)
    ensures
        match text {
            Some(t) => decoded(bytes@) == Some(t@),
            None => decoded(bytes@) is None,
        },
{
    String::from_utf8(bytes).ok()
}

/// Splits a text into its lines.
pub fn split_lines(text: &str) -> (out: Vec<String>)
    ensures
        out.deep_view() == lines(text@),
{
    let mut out: Vec<String> = Vec::new();
    let mut rest: &str = text;
    loop
        invariant_except_break
            lines(text@) == out.deep_view() + lines(rest@),
        ensures
            out.deep_view() == lines(text@),
        decreases rest@.len(),
    {
        match split_once(rest, '\n') {
            Some((head, tail)) => {
                let line = match strip_suffix(head, "\r") {
                    Some(stripped) => stripped,
                    None => head,
                };
                proof {
                    reveal_strlit("\r");
                    lemma_line_end_of_split(head@, tail@);
                    assert(rest@.take(head@.len() as int) =~= head@);
                    assert(rest@.skip(head@.len() as int + 1) =~= tail@);
                    assert(line@ == without_cr(head@));
                }
                out.push(line.to_owned());
                rest = tail;
            },
            None => {
                proof {
                    lemma_line_end_of_last(rest@);
                }
                if !rest.is_empty() {
                    out.push(rest.to_owned());
                }
                break ;
            },
        }
    }
    out
}

} // verus!
