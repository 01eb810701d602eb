use vstd::prelude::*;
use rand_core::{CryptoRng, RngCore};
use crate::constant_time::{cmov, verify};
use crate::error::KyberError;
use crate::params::{secret_key_bytes, KYBER_KRBYTES, KYBER_SSBYTES, KYBER_SYMBYTES};
use crate::primitives::{decrypt_of, encrypt_of, g_of, h_of, kdf_of, keypair_of, CpaKem, Symmetric};
use crate::rng::randombytes;
use crate::secret_key::{
    copy_bytes, cpa_public_part, cpa_secret_part, h_public_part, pack_secret_key,
    secret_key_join, split_secret_key, z_part,
};

verus! {

/// The first half of a double digest: the pre-key.
pub open spec fn pre_key(kr: Seq<u8>) -> Seq<u8> {
    kr.subrange(0, KYBER_SYMBYTES as int)
}

/// The second half of a double digest: the coins for encryption.
pub open spec fn coins(kr: Seq<u8>) -> Seq<u8> {
    kr.subrange(KYBER_SYMBYTES as int, KYBER_KRBYTES as int)
}

/// What the primitives returned during one key generation.
pub struct KeypairTrace {
    /// Secret key of the encryption scheme.
    pub cpa_secret: Seq<u8>,
    /// Digest of the public key.
    pub h_public: Seq<u8>,
}

/// Key generation from the seeds `d` and `z`, step by step: the encryption
/// scheme makes its key pair from `d`, the public key is hashed, and the
/// secret key is the join of both keys, the digest and `z`.
pub open spec fn keypair_steps<const PK: usize, const SK: usize, const CT: usize, C: CpaKem<PK, SK, CT>, S: Symmetric>(
    c: &C,
    s: &S,
    d: Seq<u8>,
    z: Seq<u8>,
    pk: Seq<u8>,
    sk: Seq<u8>,
    t: KeypairTrace,
) -> bool {
    &&& keypair_of(c, d, pk, t.cpa_secret)
    &&& h_of(s, pk, t.h_public)
    &&& sk == secret_key_join(t.cpa_secret, pk, t.h_public, z)
}

/// `(pk, sk)` is a key pair that key generation can give for the seeds `d` and `z`.
pub open spec fn keypair_relation<const PK: usize, const SK: usize, const CT: usize, C: CpaKem<PK, SK, CT>, S: Symmetric>(
    c: &C,
    s: &S,
    d: Seq<u8>,
    z: Seq<u8>,
    pk: Seq<u8>,
    sk: Seq<u8>,
) -> bool {
    exists|t: KeypairTrace| keypair_steps(c, s, d, z, pk, sk, t)
}

/// What the primitives returned during one encapsulation.
pub struct EncapsTrace {
    /// Digest of the seed: the message that is encrypted.
    pub h_m: Seq<u8>,
    /// Digest of the public key.
    pub h_pk: Seq<u8>,
    /// Double digest of the two: pre-key and coins.
    pub kr: Seq<u8>,
    /// Digest of the ciphertext.
    pub h_ct: Seq<u8>,
}

/// Encapsulation to `pk` from the seed `m`, step by step: seed and public key
/// are hashed, the two digests are hashed to pre-key and coins, the seed's
/// digest is encrypted with the coins, and the shared secret is derived from
/// the pre-key and the digest of the ciphertext.
pub open spec fn encaps_steps<const PK: usize, const SK: usize, const CT: usize, C: CpaKem<PK, SK, CT>, S: Symmetric>(
    c: &C,
    s: &S,
    pk: Seq<u8>,
    m: Seq<u8>,
    ct: Seq<u8>,
    ss: Seq<u8>,
    t: EncapsTrace,
) -> bool {
    &&& h_of(s, m, t.h_m)
    &&& h_of(s, pk, t.h_pk)
    &&& g_of(s, t.h_m + t.h_pk, t.kr)
    &&& encrypt_of(c, t.h_m, pk, coins(t.kr), ct)
    &&& h_of(s, ct, t.h_ct)
    &&& kdf_of(s, pre_key(t.kr) + t.h_ct, ss)
}

/// `(ct, ss)` is a ciphertext and shared secret that encapsulation to `pk`
/// can give for the seed `m`.
pub open spec fn encaps_relation<const PK: usize, const SK: usize, const CT: usize, C: CpaKem<PK, SK, CT>, S: Symmetric>(
    c: &C,
    s: &S,
    pk: Seq<u8>,
    m: Seq<u8>,
    ct: Seq<u8>,
    ss: Seq<u8>,
) -> bool {
    exists|t: EncapsTrace| encaps_steps(c, s, pk, m, ct, ss, t)
}

/// What the primitives returned during one decapsulation.
pub struct DecapsTrace {
    /// The decrypted message.
    pub m: Seq<u8>,
    /// Double digest of message and stored public-key digest.
    pub kr: Seq<u8>,
    /// The message encrypted again.
    pub reenc: Seq<u8>,
    /// Digest of the received ciphertext.
    pub h_ct: Seq<u8>,
}

/// The input of the final key derivation: the digest of the ciphertext behind
/// the pre-key, or behind the rejection value when decapsulation failed.
pub open spec fn kdf_input(kr: Seq<u8>, h_ct: Seq<u8>, z: Seq<u8>, fail: bool) -> Seq<u8> {
    (if fail {
        z
    } else {
        pre_key(kr)
    }) + h_ct
}

/// Decapsulation of `ct` with `sk`, step by step: the ciphertext is decrypted,
/// message and stored digest are hashed to pre-key and coins, the message is
/// encrypted again with the coins, and decapsulation fails exactly when that
/// differs from `ct`. The shared secret is derived from `kdf_input`.
pub open spec fn decaps_steps<const PK: usize, const SK: usize, const CT: usize, C: CpaKem<PK, SK, CT>, S: Symmetric>(
    c: &C,
    s: &S,
    ct: Seq<u8>,
    sk: Seq<u8>,
    ss: Seq<u8>,
    fail: bool,
    t: DecapsTrace,
) -> bool {
    &&& decrypt_of(c, ct, cpa_secret_part(sk, SK as nat), t.m)
    &&& g_of(s, t.m + h_public_part(sk, SK as nat, PK as nat), t.kr)
    &&& encrypt_of(c, t.m, cpa_public_part(sk, SK as nat, PK as nat), coins(t.kr), t.reenc)
    &&& h_of(s, ct, t.h_ct)
    &&& fail == (t.reenc != ct)
    &&& kdf_of(s, kdf_input(t.kr, t.h_ct, z_part(sk, SK as nat, PK as nat), fail), ss)
}

/// `ss` and `fail` are a shared secret and a status that decapsulation of
/// `ct` with `sk` can give.
pub open spec fn decaps_relation<const PK: usize, const SK: usize, const CT: usize, C: CpaKem<PK, SK, CT>, S: Symmetric>(
    c: &C,
    s: &S,
    ct: Seq<u8>,
    sk: Seq<u8>,
    ss: Seq<u8>,
    fail: bool,
) -> bool {
    exists|t: DecapsTrace| decaps_steps(c, s, ct, sk, ss, fail, t)
}

/// Generates a key pair from the two seeds `d` and `z`.
pub fn crypto_kem_keypair_derand<const PK: usize, const SK: usize, const CT: usize, C: CpaKem<PK, SK, CT>, S: Symmetric>(
    pk: &mut [u8],
    sk: &mut [u8],
    d: &[u8],
    z: &[u8],
    cpa: &C,
    sym: &S,
)
    requires
        old(pk)@.len() == PK,
        old(sk)@.len() == secret_key_bytes(SK as nat, PK as nat),
        d@.len() == KYBER_SYMBYTES,
        z@.len() == KYBER_SYMBYTES,
    ensures
        final(pk)@.len() == PK,
        final(sk)@.len() == secret_key_bytes(SK as nat, PK as nat),
        keypair_relation(cpa, sym, d@, z@, final(pk)@, final(sk)@),
{
    let (cpa_pk, cpa_sk) = cpa.keypair(d);
    let h_public = sym.hash_h(&cpa_pk);
    copy_bytes(pk, 0, &cpa_pk);
    pack_secret_key(sk, &cpa_sk, &cpa_pk, &h_public, z);
    proof {
        assert(pk@ =~= cpa_pk@);
        assert(keypair_of(cpa, d@, pk@, cpa_sk@));
        assert(h_of(sym, pk@, h_public@));
        let t = KeypairTrace { cpa_secret: cpa_sk@, h_public: h_public@ };
        assert(keypair_steps(cpa, sym, d@, z@, pk@, sk@, t));
    }
}

/// Generates a public and a secret key.
///
/// With `seed` given, its two halves are the seeds of the encryption scheme's
/// key pair and of the rejection value. Without it both are drawn from `rng`,
/// in this order, before anything is written: when the source fails, `pk` and
/// `sk` are left untouched.
pub fn crypto_kem_keypair<const PK: usize, const SK: usize, const CT: usize, C: CpaKem<PK, SK, CT>, S: Symmetric, R>(
    pk: &mut [u8],
    sk: &mut [u8],
    rng: &mut R,
    seed: Option<([u8; 32], [u8; 32])>,
    cpa: &C,
    sym: &S,
) -> (res: Result<(), KyberError>) where R: RngCore + CryptoRng
    requires
        old(pk)@.len() == PK,
        old(sk)@.len() == secret_key_bytes(SK as nat, PK as nat),
    ensures
        final(pk)@.len() == PK,
        final(sk)@.len() == secret_key_bytes(SK as nat, PK as nat),
        seed is Some ==> res is Ok,
        res is Ok ==> match seed {
            Some(sd) => keypair_relation(cpa, sym, sd.0@, sd.1@, final(pk)@, final(sk)@),
            None => exists|d: Seq<u8>, z: Seq<u8>|
                d.len() == KYBER_SYMBYTES && z.len() == KYBER_SYMBYTES && #[trigger] keypair_relation(
                    cpa,
                    sym,
                    d,
                    z,
                    final(pk)@,
                    final(sk)@,
                ),
        },
        res is Err ==> res == Err::<(), KyberError>(KyberError::RandomnessFailure) && final(pk)@
            == old(pk)@ && final(sk)@ == old(sk)@,
{
    match seed {
        Some(sd) => {
            crypto_kem_keypair_derand(pk, sk, &sd.0, &sd.1, cpa, sym);
            Ok(())
        },
        None => {
            let mut d = [0u8; KYBER_SYMBYTES];
            match randombytes(&mut d, rng) {
                Ok(()) => {},
                Err(_) => {
                    return Err(KyberError::RandomnessFailure);
                },
            }
            let mut z = [0u8; KYBER_SYMBYTES];
            match randombytes(&mut z, rng) {
                Ok(()) => {},
                Err(_) => {
                    return Err(KyberError::RandomnessFailure);
                },
            }
            crypto_kem_keypair_derand(pk, sk, &d, &z, cpa, sym);
            Ok(())
        },
    }
}

/// Generates a ciphertext and a shared secret for the public key `pk` from
/// the seed `m`.
pub fn crypto_kem_enc_derand<const PK: usize, const SK: usize, const CT: usize, C: CpaKem<PK, SK, CT>, S: Symmetric>(
    ct: &mut [u8],
    ss: &mut [u8],
    pk: &[u8],
    m: &[u8],
    cpa: &C,
    sym: &S,
)
    requires
        old(ct)@.len() == CT,
        old(ss)@.len() == KYBER_SSBYTES,
        pk@.len() == PK,
        m@.len() == KYBER_SYMBYTES,
    ensures
        final(ct)@.len() == CT,
        final(ss)@.len() == KYBER_SSBYTES,
        encaps_relation(cpa, sym, pk@, m@, final(ct)@, final(ss)@),
{
    let h_m = sym.hash_h(m);
    let h_pk = sym.hash_h(pk);
    let mut buf = [0u8; KYBER_KRBYTES];
    copy_bytes(&mut buf, 0, &h_m);
    copy_bytes(&mut buf, KYBER_SYMBYTES, &h_pk);
    assert(buf@ =~= h_m@ + h_pk@);
    let mut kr = sym.hash_g(&buf);
    let ghost kr0 = kr@;
    let c = cpa.encrypt(&h_m, pk, &kr[KYBER_SYMBYTES..KYBER_KRBYTES]);
    let h_ct = sym.hash_h(&c);
    copy_bytes(&mut kr, KYBER_SYMBYTES, &h_ct);
    assert(kr@ =~= pre_key(kr0) + h_ct@);
    let k = sym.kdf(&kr);
    copy_bytes(ct, 0, &c);
    copy_bytes(ss, 0, &k);
    proof {
        assert(ct@ =~= c@);
        assert(ss@ =~= k@);
        assert(h_of(sym, m@, h_m@));
        assert(h_of(sym, pk@, h_pk@));
        assert(g_of(sym, h_m@ + h_pk@, kr0));
        assert(encrypt_of(cpa, h_m@, pk@, coins(kr0), ct@));
        assert(h_of(sym, ct@, h_ct@));
        assert(kdf_of(sym, pre_key(kr0) + h_ct@, ss@));
        let t = EncapsTrace { h_m: h_m@, h_pk: h_pk@, kr: kr0, h_ct: h_ct@ };
        assert(encaps_steps(cpa, sym, pk@, m@, ct@, ss@, t));
    }
}

/// Generates a ciphertext and a shared secret for the public key `pk`.
///
/// With `seed` given, it is the seed of the encapsulation. Without it the
/// seed is drawn from `rng` before anything is written: when the source
/// fails, `ct` and `ss` are left untouched.
pub fn crypto_kem_enc<const PK: usize, const SK: usize, const CT: usize, C: CpaKem<PK, SK, CT>, S: Symmetric, R>(
    ct: &mut [u8],
    ss: &mut [u8],
    pk: &[u8],
    rng: &mut R,
    seed: Option<&[u8]>,
    cpa: &C,
    sym: &S,
) -> (res: Result<(), KyberError>) where R: RngCore + CryptoRng
    requires
        old(ct)@.len() == CT,
        old(ss)@.len() == KYBER_SSBYTES,
        pk@.len() == PK,
        seed matches Some(sd) ==> sd@.len() == KYBER_SYMBYTES,
    ensures
        final(ct)@.len() == CT,
        final(ss)@.len() == KYBER_SSBYTES,
        seed is Some ==> res is Ok,
        res is Ok ==> match seed {
            Some(sd) => encaps_relation(cpa, sym, pk@, sd@, final(ct)@, final(ss)@),
            None => exists|m: Seq<u8>|
                m.len() == KYBER_SYMBYTES && #[trigger] encaps_relation(
                    cpa,
                    sym,
                    pk@,
                    m,
                    final(ct)@,
                    final(ss)@,
                ),
        },
        res is Err ==> res == Err::<(), KyberError>(KyberError::RandomnessFailure) && final(ct)@
            == old(ct)@ && final(ss)@ == old(ss)@,
{
    match seed {
        Some(sd) => {
            crypto_kem_enc_derand(ct, ss, pk, sd, cpa, sym);
            Ok(())
        },
        None => {
            let mut m = [0u8; KYBER_SYMBYTES];
            match randombytes(&mut m, rng) {
                Ok(()) => {},
                Err(_) => {
                    return Err(KyberError::RandomnessFailure);
                },
            }
            crypto_kem_enc_derand(ct, ss, pk, &m, cpa, sym);
            Ok(())
        },
    }
}

/// Turns the double digest `kr` into the input of the final key derivation,
/// given the received ciphertext `ct`, the re-encryption `reenc`, the digest
/// `h_ct` of `ct` and the rejection value `z`. Compares, overwrites the coins
/// with the digest and moves `z` over the pre-key under the comparison's
/// result, in this order and with the same work whether the two ciphertexts
/// agree or not. Returns 0 when they agree and 1 when they differ.
pub fn implicit_rejection(kr: &mut [u8], ct: &[u8], reenc: &[u8], h_ct: &[u8], z: &[u8]) -> (fail:
    u8)
    requires
        old(kr)@.len() == KYBER_KRBYTES,
        ct@.len() == reenc@.len(),
        h_ct@.len() == KYBER_SYMBYTES,
        z@.len() == KYBER_SYMBYTES,
    ensures
        fail == (if reenc@ != ct@ {
            1u8
        } else {
            0u8
        }),
        final(kr)@ == kdf_input(old(kr)@, h_ct@, z@, reenc@ != ct@),
        final(kr)@.len() == KYBER_KRBYTES,
{
    let fail = verify(ct, reenc, ct.len());
    assert(ct@.subrange(0, ct@.len() as int) =~= ct@);
    assert(reenc@.subrange(0, ct@.len() as int) =~= reenc@);
    copy_bytes(kr, KYBER_SYMBYTES, h_ct);
    cmov(kr, z, KYBER_SYMBYTES, fail);
    assert(kr@ =~= kdf_input(old(kr)@, h_ct@, z@, reenc@ != ct@));
    fail
}

/// Generates the shared secret for the ciphertext `ct` with the secret key `sk`.
///
/// `ss` is written in either case. When the ciphertext does not re-encrypt to
/// itself the result is `DecodeFail` and `ss` is derived from the rejection
/// value in place of the pre-key.
pub fn crypto_kem_dec<const PK: usize, const SK: usize, const CT: usize, C: CpaKem<PK, SK, CT>, S: Symmetric>(
    ss: &mut [u8],
    ct: &[u8],
    sk: &[u8],
    cpa: &C,
    sym: &S,
) -> (res: Result<(), KyberError>)
    requires
        old(ss)@.len() == KYBER_SSBYTES,
        ct@.len() == CT,
        sk@.len() == secret_key_bytes(SK as nat, PK as nat),
    ensures
        final(ss)@.len() == KYBER_SSBYTES,
        decaps_relation(cpa, sym, ct@, sk@, final(ss)@, res is Err),
        res is Err ==> res == Err::<(), KyberError>(KyberError::DecodeFail),
{
    let parts = split_secret_key(sk, SK, PK);
    let m = cpa.decrypt(ct, parts.cpa_secret);
    let mut buf = [0u8; KYBER_KRBYTES];
    copy_bytes(&mut buf, 0, &m);
    copy_bytes(&mut buf, KYBER_SYMBYTES, parts.h_public);
    assert(buf@ =~= m@ + parts.h_public@);
    let mut kr = sym.hash_g(&buf);
    let ghost kr0 = kr@;
    let reenc = cpa.encrypt(&m, parts.cpa_public, &kr[KYBER_SYMBYTES..KYBER_KRBYTES]);
    let h_ct = sym.hash_h(ct);
    let fail = implicit_rejection(&mut kr, ct, &reenc, &h_ct, parts.z);
    let k = sym.kdf(&kr);
    copy_bytes(ss, 0, &k);
    proof {
        assert(ss@ =~= k@);
        assert(decrypt_of(cpa, ct@, parts.cpa_secret@, m@));
        assert(g_of(sym, m@ + parts.h_public@, kr0));
        assert(encrypt_of(cpa, m@, parts.cpa_public@, coins(kr0), reenc@));
        assert(h_of(sym, ct@, h_ct@));
        assert(kdf_of(sym, kdf_input(kr0, h_ct@, parts.z@, reenc@ != ct@), ss@));
        let t = DecapsTrace { m: m@, kr: kr0, reenc: reenc@, h_ct: h_ct@ };
        assert(decaps_steps(cpa, sym, ct@, sk@, ss@, fail != 0, t));
    }
    if fail == 0 {
        Ok(())
    } else {
        Err(KyberError::DecodeFail)
    }
}

} // verus!
