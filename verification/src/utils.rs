//! Trimming of the line terminator that ends a program's output.

use crate::text::strip_suffix;
use vstd::prelude::*;

verus! {

/// `s` without one trailing line terminator: `"\r\n"` where it ends with
/// that, else `"\n"` where it ends with that, else `s` itself.
pub open spec fn stripped(s: Seq<char>) -> Seq<char> {
    if seq!['\r', '\n'].is_suffix_of(s) {
        s.subrange(0, s.len() - 2)
    } else if seq!['\n'].is_suffix_of(s) {
        s.subrange(0, s.len() - 1)
    } else {
        s
    }
}

/// Text that can drop the line terminator at its end.
pub trait StripTrailingNewline {
    /// The characters of the text.
    spec fn chars(&self) -> Seq<char>;

    /// A copy of the text without its trailing `"\r\n"` or `"\n"`. At most
    /// one terminator is removed.
    fn strip_trailing_newline(&self) -> (out: String)
        ensures
            out@ == stripped(self.chars()),
    ;
}

impl StripTrailingNewline for String {
    open spec fn chars(&self) -> Seq<char> {
        self@
    }

    fn strip_trailing_newline(&self) -> (out: String) {
        let text = self.as_str();
        proof {
            reveal_strlit("\r\n");
            reveal_strlit("\n");
        }
        match strip_suffix(text, "\r\n") {
            Some(head) => head.to_owned(),
            None => match strip_suffix(text, "\n") {
                Some(head) => head.to_owned(),
                None => text.to_owned(),
            },
        }
    }
}

} // verus!
