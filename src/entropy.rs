//! Entropy from the operating system, for the callers that do not bring
//! their own.
use vstd::prelude::*;

verus! {

#[verifier::external_type_specification]
#[verifier::external_body]
pub struct ExGetrandomError(getrandom::Error);

/// Relies on `getrandom::fill`: it overwrites the buffer with random bytes
/// from the operating system, or reports an error; the buffer keeps its length.
#[verifier::external_body]
fn fill_from_os(buf: &mut Vec<u8>) -> (r: Result<(), getrandom::Error>)
    ensures
        final(buf)@.len() == old(buf)@.len(),
{
    getrandom::fill(buf.as_mut_slice())
}

/// `len` bytes of operating-system randomness, or `None` when the entropy
/// source fails; nothing weaker is ever substituted.
pub fn draw_entropy(len: usize) -> (r: Option<Vec<u8>>)
    ensures
        r matches Some(bytes) ==> bytes@.len() == len,
{
    let mut buf: Vec<u8> = vec![0u8; len];
    match fill_from_os(&mut buf) {
        Ok(()) => Some(buf),
        Err(_) => None,
    }
}

} // verus!
