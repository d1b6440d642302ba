use vstd::prelude::*;

verus! {

/// Relies on std's `FromIterator<char> for String`: the string holds the characters in order.
#[verifier::external_body]
pub(crate) fn string_of(chars: &Vec<char>) -> (r: String)
    ensures
        r@ == chars@,
{
    chars.iter().collect()
}

} // verus!
