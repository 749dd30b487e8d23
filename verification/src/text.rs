//! Small verified helpers on strings, stated over their character sequences.

use vstd::prelude::*;
use vstd::string::*;

verus! {

/// Whether two strings hold the same characters.
pub fn same_text(left: &str, right: &str) -> (same: bool)
    ensures
        same == (left@ == right@),
{
    let a = left.to_owned();
    let b = right.to_owned();
    a == b
}

/// What is left of `text` behind `prefix`, or `None` where `text` does not
/// begin with it.
pub open spec fn stripped(text: Seq<char>, prefix: Seq<char>) -> Option<Seq<char>> {
    if prefix.is_prefix_of(text) {
        Some(text.skip(prefix.len() as int))
    } else {
        None
    }
}

/// Removes `prefix` from the front of `text`.
pub fn strip_prefix<'a>(text: &'a str, prefix: &str) -> (rest: Option<&'a str>)
    ensures
        rest is Some == stripped(text@, prefix@) is Some,
        rest matches Some(r) ==> Some(r@) == stripped(text@, prefix@),
{
    let n = text.unicode_len();
    let k = prefix.unicode_len();
    if k > n {
        return None;
    }
    let mut i: usize = 0;
    while i < k
        invariant
            i <= k <= n,
            n == text@.len(),
            k == prefix@.len(),
            forall|j: int| 0 <= j < i ==> text@[j] == prefix@[j],
        decreases k - i,
    {
        if text.get_char(i) != prefix.get_char(i) {
            return None;
        }
        i += 1;
    }
    assert(prefix@ =~= text@.subrange(0, k as int));
    let r = text.substring_char(k, n);
    assert(r@ =~= text@.skip(k as int));
    Some(r)
}

/// The views of a sequence of strings, in order.
pub open spec fn texts(items: Seq<String>) -> Seq<Seq<char>> {
    items.map_values(|s: String| s@)
}

} // verus!
