//! Building of texts.

use vstd::prelude::*;

verus! {

/// `String::push_str` appends the characters of a string slice to a string.
#[verifier::external_body]
pub(crate) fn push_str(text: &mut String, tail: &str)
    ensures
        final(text)@ == old(text)@ + tail@,
{
    text.push_str(tail)
}

} // verus!
