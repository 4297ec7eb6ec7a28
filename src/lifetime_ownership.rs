//! Borrowing across one shared lifetime.
use vstd::prelude::*;

use crate::byte_len;

verus! {

/// Takes two borrowed strings that live equally long and returns the longer
/// one by byte length; on a tie, `b`. No ownership moves: the caller keeps
/// both strings and the result borrows one of them.
pub fn longest<'a>(a: &'a String, b: &'a String) -> (r: &'a String)
    ensures
        r == (if byte_len(a) > byte_len(b) { a } else { b }),
{
    crate::longest(a, b)
}

} // verus!
