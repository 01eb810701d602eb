use vstd::prelude::*;
use crate::params::{KYBER_KRBYTES, KYBER_SSBYTES, KYBER_SYMBYTES};

verus! {

/// The hash functions and the key-derivation function that the mechanism is
/// built on. They are black boxes to it: no method promises anything of its
/// result beyond its length, which the return type fixes.
///
/// Contracts that involve a primitive therefore speak of what it can return:
/// `h_of(s, input, out)` holds when `out` is a result of `s.hash_h` on
/// `input`, and so on for the others. Laws that need a primitive to be a
/// function of its input ask for that with the `_deterministic` predicates.
pub trait Symmetric {
    /// Hashes `input` to one symmetric unit.
    fn hash_h(&self, input: &[u8]) -> [u8; KYBER_SYMBYTES];

    /// Hashes `input` to two symmetric units.
    fn hash_g(&self, input: &[u8]) -> [u8; KYBER_KRBYTES];

    /// Derives a shared secret from `input`.
    fn kdf(&self, input: &[u8]) -> [u8; KYBER_SSBYTES];
}

/// The passively secure public-key encryption scheme under the mechanism, with
/// public keys of `PK`, secret keys of `SK` and ciphertexts of `CT` bytes.
/// The mechanism hands every method buffers of exactly these lengths and
/// relies on nothing but the lengths of what comes back.
pub trait CpaKem<const PK: usize, const SK: usize, const CT: usize> {
    /// Makes a key pair from one symmetric unit of seed: public key, then secret key.
    fn keypair(&self, seed: &[u8]) -> ([u8; PK], [u8; SK])
        requires
            seed@.len() == KYBER_SYMBYTES,
    ;

    /// Encrypts the message `m` under `pk` with the randomness `coins`.
    fn encrypt(&self, m: &[u8], pk: &[u8], coins: &[u8]) -> [u8; CT]
        requires
            m@.len() == KYBER_SYMBYTES,
            pk@.len() == PK,
            coins@.len() == KYBER_SYMBYTES,
    ;

    /// Recovers a message from `ct` with `sk`.
    fn decrypt(&self, ct: &[u8], sk: &[u8]) -> [u8; KYBER_SYMBYTES]
        requires
            ct@.len() == CT,
            sk@.len() == SK,
    ;
}

/// `out` is a digest that `hash_h` can return for `input`.
pub open spec fn h_of<S: Symmetric>(s: &S, input: Seq<u8>, out: Seq<u8>) -> bool {
    exists|i: &[u8], o: [u8; KYBER_SYMBYTES]|
        i@ == input && o@ == out && call_ensures(S::hash_h, (s, i), o)
}

/// `out` is a double digest that `hash_g` can return for `input`.
pub open spec fn g_of<S: Symmetric>(s: &S, input: Seq<u8>, out: Seq<u8>) -> bool {
    exists|i: &[u8], o: [u8; KYBER_KRBYTES]|
        i@ == input && o@ == out && call_ensures(S::hash_g, (s, i), o)
}

/// `out` is a shared secret that `kdf` can return for `input`.
pub open spec fn kdf_of<S: Symmetric>(s: &S, input: Seq<u8>, out: Seq<u8>) -> bool {
    exists|i: &[u8], o: [u8; KYBER_SSBYTES]|
        i@ == input && o@ == out && call_ensures(S::kdf, (s, i), o)
}

/// `(pk, sk)` is a key pair that `keypair` can return for `seed`.
pub open spec fn keypair_of<const PK: usize, const SK: usize, const CT: usize, C: CpaKem<PK, SK, CT>>(
    c: &C,
    seed: Seq<u8>,
    pk: Seq<u8>,
    sk: Seq<u8>,
) -> bool {
    exists|i: &[u8], o: ([u8; PK], [u8; SK])|
        i@ == seed && o.0@ == pk && o.1@ == sk && call_ensures(C::keypair, (c, i), o)
}

/// `ct` is a ciphertext that `encrypt` can return for `m`, `pk` and `coins`.
pub open spec fn encrypt_of<const PK: usize, const SK: usize, const CT: usize, C: CpaKem<PK, SK, CT>>(
    c: &C,
    m: Seq<u8>,
    pk: Seq<u8>,
    coins: Seq<u8>,
    ct: Seq<u8>,
) -> bool {
    exists|im: &[u8], ipk: &[u8], ic: &[u8], o: [u8; CT]|
        im@ == m && ipk@ == pk && ic@ == coins && o@ == ct && call_ensures(
            C::encrypt,
            (c, im, ipk, ic),
            o,
        )
}

/// `m` is a message that `decrypt` can return for `ct` and `sk`.
pub open spec fn decrypt_of<const PK: usize, const SK: usize, const CT: usize, C: CpaKem<PK, SK, CT>>(
    c: &C,
    ct: Seq<u8>,
    sk: Seq<u8>,
    m: Seq<u8>,
) -> bool {
    exists|ict: &[u8], isk: &[u8], o: [u8; KYBER_SYMBYTES]|
        ict@ == ct && isk@ == sk && o@ == m && call_ensures(C::decrypt, (c, ict, isk), o)
}

/// The three symmetric functions are functions: equal inputs give equal outputs.
pub open spec fn symmetric_deterministic<S: Symmetric>(s: &S) -> bool {
    &&& forall|i: Seq<u8>, a: Seq<u8>, b: Seq<u8>|
        #[trigger] h_of(s, i, a) && #[trigger] h_of(s, i, b) ==> a == b
    &&& forall|i: Seq<u8>, a: Seq<u8>, b: Seq<u8>|
        #[trigger] g_of(s, i, a) && #[trigger] g_of(s, i, b) ==> a == b
    &&& forall|i: Seq<u8>, a: Seq<u8>, b: Seq<u8>|
        #[trigger] kdf_of(s, i, a) && #[trigger] kdf_of(s, i, b) ==> a == b
}

/// Key generation is a function of its seed.
pub open spec fn keypair_deterministic<const PK: usize, const SK: usize, const CT: usize, C: CpaKem<PK, SK, CT>>(
    c: &C,
) -> bool {
    forall|seed: Seq<u8>, pk1: Seq<u8>, sk1: Seq<u8>, pk2: Seq<u8>, sk2: Seq<u8>|
        #[trigger] keypair_of(c, seed, pk1, sk1) && #[trigger] keypair_of(c, seed, pk2, sk2)
            ==> pk1 == pk2 && sk1 == sk2
}

/// Encryption is a function of message, public key and coins.
pub open spec fn encrypt_deterministic<const PK: usize, const SK: usize, const CT: usize, C: CpaKem<PK, SK, CT>>(
    c: &C,
) -> bool {
    forall|m: Seq<u8>, pk: Seq<u8>, coins: Seq<u8>, a: Seq<u8>, b: Seq<u8>|
        #[trigger] encrypt_of(c, m, pk, coins, a) && #[trigger] encrypt_of(c, m, pk, coins, b)
            ==> a == b
}

/// Decryption is a function of ciphertext and secret key.
pub open spec fn decrypt_deterministic<const PK: usize, const SK: usize, const CT: usize, C: CpaKem<PK, SK, CT>>(
    c: &C,
) -> bool {
    forall|ct: Seq<u8>, sk: Seq<u8>, a: Seq<u8>, b: Seq<u8>|
        #[trigger] decrypt_of(c, ct, sk, a) && #[trigger] decrypt_of(c, ct, sk, b) ==> a == b
}

} // verus!
