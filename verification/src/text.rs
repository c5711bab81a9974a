//! Building owned strings from character sequences.

use vstd::prelude::*;

verus! {

/// Relies on `String: FromIterator<char>`: collecting an iterator of
/// characters yields the string made of exactly those characters, in order.
#[verifier::external_body]
pub(crate) fn chars_to_string(chars: &Vec<char>) -> (r: String)
    ensures
        r@ == chars@,
{
    chars.iter().collect()
}

} // verus!
