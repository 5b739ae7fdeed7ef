use vstd::prelude::*;

use crate::errors::AuthError;

verus! {

/// Relies on rand::fill over the thread-local cryptographically secure
/// generator: it overwrites the whole slice with random bytes and keeps its
/// length. Nothing can be promised of the values.
#[verifier::external_body]
pub(crate) fn fill_random(buf: &mut Vec<u8>)
    ensures
        final(buf)@.len() == old(buf)@.len(),
{
    rand::fill(buf.as_mut_slice());
}

/// Relies on std::time::SystemTime::now and duration_since(UNIX_EPOCH): the
/// wall clock as whole seconds since the Unix epoch; it fails only when the
/// clock stands before the epoch. Nothing can be promised of the value.
#[verifier::external_body]
pub(crate) fn unix_time_now() -> (r: Result<u64, AuthError>)
    ensures
        r is Err ==> r->Err_0 == AuthError::Internal,
{
    match std::time::SystemTime::now().duration_since(std::time::UNIX_EPOCH) {
        Ok(d) => Ok(d.as_secs()),
        Err(_) => Err(AuthError::Internal),
    }
}

} // verus!
