use vstd::prelude::*;

verus! {

/// The two ways an operation of the mechanism can fail.
#[derive(Debug, Clone, Copy, PartialEq, Eq, Structural)]
pub enum KyberError {
    /// The randomness source could not deliver the bytes asked of it.
    RandomnessFailure,
    /// The ciphertext did not re-encrypt to itself under the given secret key.
    DecodeFail,
}

} // verus!
