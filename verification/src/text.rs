//! Small operations on text that the routes and paths are decided with.

use vstd::prelude::*;

verus! {

/// Whether two texts are the same, character by character.
pub fn same_text(left: &str, right: &str) -> (same: bool)
    ensures
        same == (left@ == right@),
{
    left.to_owned() == right.to_owned()
}

/// Whether `text` begins with `prefix`.
pub fn has_prefix(text: &str, prefix: &str) -> (begins: bool)
    ensures
        begins == prefix@.is_prefix_of(text@),
{
    let len = text.unicode_len();
    let prefix_len = prefix.unicode_len();
    if len < prefix_len {
        return false;
    }
    let mut i: usize = 0;
    while i < prefix_len
        invariant
            i <= prefix_len <= len,
            len == text@.len(),
            prefix_len == prefix@.len(),
            forall|k: int| 0 <= k < i ==> text@[k] == prefix@[k],
        decreases prefix_len - i,
    {
        if text.get_char(i) != prefix.get_char(i) {
            return false;
        }
        i = i + 1;
    }
    true
}

/// The text without its first `count` characters; the empty text where it
/// has no more than `count`.
pub fn skip_chars(text: &str, count: usize) -> (rest: String)
    ensures
        rest@ == if count <= text@.len() {
            text@.skip(count as int)
        } else {
            Seq::empty()
        },
{
    let len = text.unicode_len();
    if count <= len {
        let rest = text.substring_char(count, len);
        rest.to_owned()
    } else {
        String::new()
    }
}

} // verus!
