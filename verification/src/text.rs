//! Operations on owned text that the standard library offers and that the
//! engine needs one character at a time.

use vstd::prelude::*;

verus! {

/// `text` with `c` added at its end, by `String::push`.
#[verifier::external_body]
pub(crate) fn push_char(text: &mut String, c: char)
    ensures
        final(text)@ == old(text)@.push(c),
{
    text.push(c)
}

/// `text` without its last character, by `String::pop`; an empty text stays
/// empty.
#[verifier::external_body]
pub(crate) fn pop_char(text: &mut String)
    ensures
        final(text)@ == without_last(old(text)@),
{
    let _ = text.pop();
}

/// `text` without its last character, or `text` itself where it is empty.
pub open spec fn without_last(text: Seq<char>) -> Seq<char> {
    if text.len() > 0 {
        text.drop_last()
    } else {
        text
    }
}

} // verus!
