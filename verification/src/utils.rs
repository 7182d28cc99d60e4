//! Storefront text utilities.

use vstd::prelude::*;

verus! {

/// Cut a text to at most `max_len` characters, marking the cut with an
/// ellipsis. Restricted to ASCII text, where character and byte counts
/// agree, so the cut cannot split a character.
pub fn truncate(text: &str, max_len: usize) -> (r: String)
    requires
        text.is_ascii(),
    ensures
        text@.len() <= max_len ==> r@ == text@,
        text@.len() > max_len ==> r@ == text@.subrange(0, max_len as int) + "..."@,
{
    let len = text.unicode_len();
    if len <= max_len {
        text.to_owned()
    } else {
        let head = text.substring_ascii(0, max_len);
        head.to_owned().concat("...")
    }
}

} // verus!
