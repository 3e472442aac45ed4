use vstd::prelude::*;

verus! {

#[verifier::external_type_specification]
#[verifier::external_body]
pub struct ExRandomError(getrandom::Error);

/// `getrandom::getrandom`: overwrites the buffer with bytes from the
/// operating system's random source, or fails. The length stays; nothing is
/// promised of the bytes.
#[verifier::external_body]
pub(crate) fn fill_random(buffer: &mut Vec<u8>) -> (r: Result<(), getrandom::Error>)
    ensures
        final(buffer)@.len() == old(buffer)@.len(),
{
    getrandom::getrandom(buffer.as_mut_slice())
}

} // verus!
