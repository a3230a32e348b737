//! Small helpers on text.

use vstd::prelude::*;

verus! {

/// Whether two texts hold the same characters.
pub fn same_text(a: &str, b: &str) -> (same: bool)
    ensures
        same == (a@ == b@),
{
    let left: String = String::from_str(a);
    let right: String = String::from_str(b);
    left == right
}

/// Whether a text begins with a given prefix.
pub fn starts_with(text: &str, prefix: &str) -> (found: bool)
    ensures
        found == prefix@.is_prefix_of(text@),
{
    let len: usize = prefix.unicode_len();
    if text.unicode_len() < len {
        return false;
    }
    let mut i: usize = 0;
    while i < len
        invariant
            i <= len,
            len == prefix@.len(),
            len <= text@.len(),
            prefix@.take(i as int) == text@.take(i as int),
        decreases len - i,
    {
        if text.get_char(i) != prefix.get_char(i) {
            assert(prefix@[i as int] != text@.subrange(0, len as int)[i as int]);
            return false;
        }
        i += 1;
        assert(prefix@.take(i as int) =~= text@.take(i as int)) by {
            assert(prefix@.take(i as int) =~= prefix@.take(i - 1).push(prefix@[i - 1]));
            assert(text@.take(i as int) =~= text@.take(i - 1).push(text@[i - 1]));
        }
    }
    assert(prefix@ =~= prefix@.take(len as int));
    assert(text@.take(len as int) =~= text@.subrange(0, len as int));
    true
}

} // verus!
