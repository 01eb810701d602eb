use vstd::prelude::*;

verus! {

/// Length in bytes of one symmetric unit: a digest, a seed, the rejection value.
pub const KYBER_SYMBYTES: usize = 32;

/// Length in bytes of the double digest that is split into pre-key and coins.
pub const KYBER_KRBYTES: usize = 64;

/// Length in bytes of the shared secret.
pub const KYBER_SSBYTES: usize = 32;

/// Length of the mechanism's secret key when the encryption scheme underneath
/// has secret keys of `cpa_secret` and public keys of `cpa_public` bytes: both
/// keys, the digest of the public key and the rejection value.
pub open spec fn secret_key_bytes(cpa_secret: nat, cpa_public: nat) -> nat {
    cpa_secret + cpa_public + 2 * KYBER_SYMBYTES as nat
}

} // verus!
