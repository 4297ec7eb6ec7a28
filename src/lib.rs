//! Small verified building blocks: picking the longer of two strings, and
//! turning the raw state of a configuration source into typed settings.
use vstd::prelude::*;
use vstd::utf8::encode_utf8;

pub mod decimal;
pub mod lifetime_ownership;
pub mod match_result;
pub mod whitespace;

verus! {

/// Length of a string in bytes of its UTF-8 encoding, as `str::len` reports it.
pub open spec fn byte_len(s: &String) -> usize {
    encode_utf8(s@).len() as usize
}

/// Returns the longer of two strings by byte length; on a tie, `b`.
/// Both borrows share one lifetime, so the result lives as long as both inputs.
pub fn longest<'a>(a: &'a String, b: &'a String) -> (r: &'a String)
    ensures
        r == (if byte_len(a) > byte_len(b) { a } else { b }),
{
    if a.as_str().len() > b.as_str().len() {
        a
    } else {
        b
    }
}

} // verus!
