//! Small helpers on strings shared by the stages.

use vstd::prelude::*;
use vstd::string::*;

verus! {

/// Whether two strings hold the same characters.
pub(crate) fn same_text(a: &str, b: &str) -> (same: bool)
    ensures
        same == (a@ == b@),
{
    String::from_str(a) == String::from_str(b)
}

/// Whether `text` starts with the character `first`.
pub(crate) fn begins_with(text: &str, first: char) -> (begins: bool)
    ensures
        begins == (text@.len() > 0 && text@[0] == first),
{
    text.unicode_len() > 0 && text.get_char(0) == first
}

} // verus!
