use vstd::prelude::*;
use rand_core::{CryptoRng, RngCore};
use crate::error::KyberError;

verus! {

/// Calls `RngCore::try_fill_bytes` of rand_core on `x` and turns its error
/// into `RandomnessFailure`. The source decides what is written and whether
/// the call succeeds, so nothing is claimed of either: only that `x` keeps
/// its length.
#[verifier::external_body]
pub(crate) fn randombytes<R>(x: &mut [u8], rng: &mut R) -> (res: Result<(), KyberError>) where
    R: RngCore + CryptoRng,
    ensures
        final(x)@.len() == old(x)@.len(),
{
    match rng.try_fill_bytes(x) {
        Ok(_) => Ok(()),
        Err(_) => Err(KyberError::RandomnessFailure),
    }
}

} // verus!
