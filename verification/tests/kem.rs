use std::cell::RefCell;
use std::num::NonZeroU32;

use kyber_kem::api::{
    crypto_kem_dec, crypto_kem_enc, crypto_kem_enc_derand, crypto_kem_keypair,
    crypto_kem_keypair_derand, implicit_rejection,
};
use kyber_kem::error::KyberError;
use kyber_kem::params::{KYBER_KRBYTES, KYBER_SSBYTES, KYBER_SYMBYTES};
use kyber_kem::primitives::{CpaKem, Symmetric};
use rand_core::{CryptoRng, Error, RngCore};
use sha3::digest::{ExtendableOutput, Update, XofReader};
use sha3::{Digest, Sha3_256, Sha3_512, Shake256};

// ---------------------------------------------------------------- primitives

/// SHA3-256, SHA3-512 and SHAKE256.
struct Sha3Suite;

impl Symmetric for Sha3Suite {
    fn hash_h(&self, input: &[u8]) -> [u8; 32] {
        Sha3_256::digest(input).into()
    }

    fn hash_g(&self, input: &[u8]) -> [u8; 64] {
        Sha3_512::digest(input).into()
    }

    fn kdf(&self, input: &[u8]) -> [u8; 32] {
        let mut hasher = Shake256::default();
        hasher.update(input);
        let mut out = [0u8; 32];
        hasher.finalize_xof().read(&mut out);
        out
    }
}

const P: u64 = (1 << 61) - 1;
const BASE: u64 = 37;

fn mul_mod(a: u64, b: u64) -> u64 {
    ((a as u128 * b as u128) % P as u128) as u64
}

fn pow_mod(base: u64, mut e: u64) -> u64 {
    let mut b = base % P;
    let mut acc = 1u64;
    while e > 0 {
        if e & 1 == 1 {
            acc = mul_mod(acc, b);
        }
        b = mul_mod(b, b);
        e >>= 1;
    }
    acc
}

fn first_u64(bytes: &[u8]) -> u64 {
    let mut w = [0u8; 8];
    w.copy_from_slice(&bytes[..8]);
    u64::from_le_bytes(w)
}

/// A small discrete-log encryption scheme: correct and deterministic given
/// its coins, and of no security whatever.
struct ToyCpa;

const TOY_PK: usize = 8;
const TOY_SK: usize = 8;
const TOY_CT: usize = 40;
const TOY_KEM_SK: usize = TOY_SK + TOY_PK + 2 * KYBER_SYMBYTES;

impl CpaKem<8, 8, 40> for ToyCpa {
    fn keypair(&self, seed: &[u8]) -> ([u8; 8], [u8; 8]) {
        assert_eq!(seed.len(), 32);
        let x = first_u64(&Sha3_256::digest(seed)) % (P - 2) + 1;
        (pow_mod(BASE, x).to_le_bytes(), x.to_le_bytes())
    }

    fn encrypt(&self, m: &[u8], pk: &[u8], coins: &[u8]) -> [u8; 40] {
        assert_eq!(m.len(), 32);
        assert_eq!(pk.len(), 8);
        assert_eq!(coins.len(), 32);
        let r = first_u64(coins) % (P - 2) + 1;
        let shared = pow_mod(first_u64(pk), r);
        let pad = Sha3_256::digest(shared.to_le_bytes());
        let mut ct = [0u8; 40];
        ct[..8].copy_from_slice(&pow_mod(BASE, r).to_le_bytes());
        for i in 0..32 {
            ct[8 + i] = m[i] ^ pad[i];
        }
        ct
    }

    fn decrypt(&self, ct: &[u8], sk: &[u8]) -> [u8; 32] {
        assert_eq!(ct.len(), 40);
        assert_eq!(sk.len(), 8);
        let shared = pow_mod(first_u64(ct), first_u64(sk));
        let pad = Sha3_256::digest(shared.to_le_bytes());
        let mut m = [0u8; 32];
        for i in 0..32 {
            m[i] = ct[8 + i] ^ pad[i];
        }
        m
    }
}

/// An encryption scheme whose decryption always returns zeros.
struct BrokenCpa;

impl CpaKem<8, 8, 40> for BrokenCpa {
    fn keypair(&self, seed: &[u8]) -> ([u8; 8], [u8; 8]) {
        ToyCpa.keypair(seed)
    }

    fn encrypt(&self, m: &[u8], pk: &[u8], coins: &[u8]) -> [u8; 40] {
        ToyCpa.encrypt(m, pk, coins)
    }

    fn decrypt(&self, _ct: &[u8], _sk: &[u8]) -> [u8; 32] {
        [0u8; 32]
    }
}

/// Records every call of a primitive with the lengths of its arguments.
struct Recorder {
    log: RefCell<Vec<(&'static str, Vec<usize>)>>,
}

impl Recorder {
    fn new() -> Self {
        Recorder { log: RefCell::new(Vec::new()) }
    }

    fn note(&self, name: &'static str, lens: &[usize]) {
        self.log.borrow_mut().push((name, lens.to_vec()));
    }
}

impl Symmetric for Recorder {
    fn hash_h(&self, input: &[u8]) -> [u8; 32] {
        self.note("hash_h", &[input.len()]);
        Sha3Suite.hash_h(input)
    }

    fn hash_g(&self, input: &[u8]) -> [u8; 64] {
        self.note("hash_g", &[input.len()]);
        Sha3Suite.hash_g(input)
    }

    fn kdf(&self, input: &[u8]) -> [u8; 32] {
        self.note("kdf", &[input.len()]);
        Sha3Suite.kdf(input)
    }
}

impl CpaKem<8, 8, 40> for Recorder {
    fn keypair(&self, seed: &[u8]) -> ([u8; 8], [u8; 8]) {
        self.note("keypair", &[seed.len()]);
        ToyCpa.keypair(seed)
    }

    fn encrypt(&self, m: &[u8], pk: &[u8], coins: &[u8]) -> [u8; 40] {
        self.note("encrypt", &[m.len(), pk.len(), coins.len()]);
        ToyCpa.encrypt(m, pk, coins)
    }

    fn decrypt(&self, ct: &[u8], sk: &[u8]) -> [u8; 32] {
        self.note("decrypt", &[ct.len(), sk.len()]);
        ToyCpa.decrypt(ct, sk)
    }
}

// ------------------------------------------------------------------- sources

/// Hands out 1, 2, 3, ... and fails from the call numbered `fail_at` on.
struct CountingRng {
    next: u8,
    calls: u32,
    fail_at: u32,
}

impl CountingRng {
    fn new() -> Self {
        CountingRng { next: 1, calls: 0, fail_at: u32::MAX }
    }

    fn failing_at(call: u32) -> Self {
        CountingRng { next: 1, calls: 0, fail_at: call }
    }
}

impl RngCore for CountingRng {
    fn next_u32(&mut self) -> u32 {
        let mut b = [0u8; 4];
        self.fill_bytes(&mut b);
        u32::from_le_bytes(b)
    }

    fn next_u64(&mut self) -> u64 {
        let mut b = [0u8; 8];
        self.fill_bytes(&mut b);
        u64::from_le_bytes(b)
    }

    fn fill_bytes(&mut self, dest: &mut [u8]) {
        for b in dest.iter_mut() {
            *b = self.next;
            self.next = self.next.wrapping_add(1);
        }
    }

    fn try_fill_bytes(&mut self, dest: &mut [u8]) -> Result<(), Error> {
        self.calls += 1;
        if self.calls >= self.fail_at {
            return Err(Error::from(NonZeroU32::new(Error::CUSTOM_START).unwrap()));
        }
        self.fill_bytes(dest);
        Ok(())
    }
}

impl CryptoRng for CountingRng {}

fn counted(from: u8) -> [u8; 32] {
    let mut out = [0u8; 32];
    for i in 0..32 {
        out[i] = from.wrapping_add(i as u8);
    }
    out
}

// ------------------------------------------------------------------- helpers

fn seeded_keys(d: [u8; 32], z: [u8; 32]) -> ([u8; TOY_PK], [u8; TOY_KEM_SK]) {
    let mut pk = [0u8; TOY_PK];
    let mut sk = [0u8; TOY_KEM_SK];
    let mut rng = CountingRng::failing_at(1);
    let res = crypto_kem_keypair(&mut pk, &mut sk, &mut rng, Some((d, z)), &ToyCpa, &Sha3Suite);
    assert_eq!(res, Ok(()));
    assert_eq!(rng.calls, 0);
    (pk, sk)
}

fn seeded_enc(pk: &[u8], m: &[u8; 32]) -> ([u8; TOY_CT], [u8; KYBER_SSBYTES]) {
    let mut ct = [0u8; TOY_CT];
    let mut ss = [0u8; KYBER_SSBYTES];
    let mut rng = CountingRng::failing_at(1);
    let res = crypto_kem_enc(&mut ct, &mut ss, pk, &mut rng, Some(&m[..]), &ToyCpa, &Sha3Suite);
    assert_eq!(res, Ok(()));
    assert_eq!(rng.calls, 0);
    (ct, ss)
}

fn dec(ct: &[u8], sk: &[u8]) -> ([u8; KYBER_SSBYTES], Result<(), KyberError>) {
    let mut ss = [0xaau8; KYBER_SSBYTES];
    let res = crypto_kem_dec(&mut ss, ct, sk, &ToyCpa, &Sha3Suite);
    (ss, res)
}

fn concat(a: &[u8], b: &[u8]) -> Vec<u8> {
    let mut v = a.to_vec();
    v.extend_from_slice(b);
    v
}

// ----------------------------------------------------------------- constants

#[test]
fn symmetric_unit_is_32_bytes() {
    assert_eq!(KYBER_SYMBYTES, 32);
    assert_eq!(KYBER_KRBYTES, 2 * KYBER_SYMBYTES);
    assert_eq!(KYBER_SSBYTES, 32);
}

// ------------------------------------------------------------ key generation

#[test]
fn keypair_lays_out_the_secret_key() {
    let d = [7u8; 32];
    let z = [9u8; 32];
    let (pk, sk) = seeded_keys(d, z);
    let (cpa_pk, cpa_sk) = ToyCpa.keypair(&d);
    assert_eq!(pk, cpa_pk);
    assert_eq!(sk.len(), 8 + 8 + 64);
    assert_eq!(&sk[..8], &cpa_sk[..]);
    assert_eq!(&sk[8..16], &cpa_pk[..]);
    assert_eq!(&sk[16..48], &Sha3Suite.hash_h(&cpa_pk)[..]);
    assert_eq!(&sk[48..], &z[..]);
}

#[test]
fn keypair_derand_equals_seeded_keypair() {
    let d = counted(3);
    let z = counted(200);
    let (pk, sk) = seeded_keys(d, z);
    let mut pk2 = [0u8; TOY_PK];
    let mut sk2 = [0u8; TOY_KEM_SK];
    crypto_kem_keypair_derand(&mut pk2, &mut sk2, &d, &z, &ToyCpa, &Sha3Suite);
    assert_eq!(pk, pk2);
    assert_eq!(sk, sk2);
}

#[test]
fn keypair_is_repeatable_under_a_seed() {
    let a = seeded_keys([1u8; 32], [2u8; 32]);
    let b = seeded_keys([1u8; 32], [2u8; 32]);
    assert_eq!(a, b);
    let c = seeded_keys([3u8; 32], [2u8; 32]);
    assert_ne!(a.0, c.0);
    let e = seeded_keys([1u8; 32], [4u8; 32]);
    assert_eq!(a.0, e.0);
    assert_ne!(a.1, e.1);
    assert_eq!(a.1[..48], e.1[..48]);
}

#[test]
fn keypair_draws_both_seeds_from_the_source_in_order() {
    let mut pk = [0u8; TOY_PK];
    let mut sk = [0u8; TOY_KEM_SK];
    let mut rng = CountingRng::new();
    let res = crypto_kem_keypair(&mut pk, &mut sk, &mut rng, None, &ToyCpa, &Sha3Suite);
    assert_eq!(res, Ok(()));
    assert_eq!(rng.calls, 2);
    let (pk2, sk2) = seeded_keys(counted(1), counted(33));
    assert_eq!(pk, pk2);
    assert_eq!(sk, sk2);
    let (pk0, _) = seeded_keys([0u8; 32], [0u8; 32]);
    assert_ne!(pk, pk0);
}

#[test]
fn keypair_fails_with_the_source_and_writes_nothing() {
    for fail_at in 1..=2 {
        let mut pk = [0x11u8; TOY_PK];
        let mut sk = [0x22u8; TOY_KEM_SK];
        let mut rng = CountingRng::failing_at(fail_at);
        let res = crypto_kem_keypair(&mut pk, &mut sk, &mut rng, None, &ToyCpa, &Sha3Suite);
        assert_eq!(res, Err(KyberError::RandomnessFailure));
        assert_eq!(pk, [0x11u8; TOY_PK]);
        assert_eq!(sk, [0x22u8; TOY_KEM_SK]);
    }
}

// ------------------------------------------------------------- encapsulation

#[test]
fn enc_follows_the_transform() {
    let (pk, _) = seeded_keys([5u8; 32], [6u8; 32]);
    let m = counted(40);
    let (ct, ss) = seeded_enc(&pk, &m);

    let h_m = Sha3Suite.hash_h(&m);
    let h_pk = Sha3Suite.hash_h(&pk);
    let kr = Sha3Suite.hash_g(&concat(&h_m, &h_pk));
    let expected_ct = ToyCpa.encrypt(&h_m, &pk, &kr[32..]);
    let h_ct = Sha3Suite.hash_h(&expected_ct);
    let expected_ss = Sha3Suite.kdf(&concat(&kr[..32], &h_ct));
    assert_eq!(ct, expected_ct);
    assert_eq!(ss, expected_ss);
}

#[test]
fn enc_derand_equals_seeded_enc() {
    let (pk, _) = seeded_keys([5u8; 32], [6u8; 32]);
    let m = counted(90);
    let (ct, ss) = seeded_enc(&pk, &m);
    let mut ct2 = [0u8; TOY_CT];
    let mut ss2 = [0u8; KYBER_SSBYTES];
    crypto_kem_enc_derand(&mut ct2, &mut ss2, &pk, &m, &ToyCpa, &Sha3Suite);
    assert_eq!(ct, ct2);
    assert_eq!(ss, ss2);
}

#[test]
fn enc_is_repeatable_under_a_seed() {
    let (pk, _) = seeded_keys([5u8; 32], [6u8; 32]);
    let a = seeded_enc(&pk, &[8u8; 32]);
    let b = seeded_enc(&pk, &[8u8; 32]);
    assert_eq!(a, b);
}

#[test]
fn enc_draws_its_seed_from_the_source() {
    let (pk, _) = seeded_keys([5u8; 32], [6u8; 32]);
    let mut ct = [0u8; TOY_CT];
    let mut ss = [0u8; KYBER_SSBYTES];
    let mut rng = CountingRng::new();
    let res = crypto_kem_enc(&mut ct, &mut ss, &pk, &mut rng, None, &ToyCpa, &Sha3Suite);
    assert_eq!(res, Ok(()));
    assert_eq!(rng.calls, 1);
    assert_eq!((ct, ss), seeded_enc(&pk, &counted(1)));
    assert_ne!((ct, ss), seeded_enc(&pk, &[0u8; 32]));
}

#[test]
fn enc_fails_with_the_source_and_writes_nothing() {
    let (pk, _) = seeded_keys([5u8; 32], [6u8; 32]);
    let mut ct = [0x33u8; TOY_CT];
    let mut ss = [0x44u8; KYBER_SSBYTES];
    let mut rng = CountingRng::failing_at(1);
    let res = crypto_kem_enc(&mut ct, &mut ss, &pk, &mut rng, None, &ToyCpa, &Sha3Suite);
    assert_eq!(res, Err(KyberError::RandomnessFailure));
    assert_eq!(ct, [0x33u8; TOY_CT]);
    assert_eq!(ss, [0x44u8; KYBER_SSBYTES]);
}

// ------------------------------------------------------------- decapsulation

#[test]
fn dec_follows_the_transform_on_success() {
    let z = [6u8; 32];
    let (pk, sk) = seeded_keys([5u8; 32], z);
    let (ct, ss) = seeded_enc(&pk, &counted(17));
    let (ss_dec, res) = dec(&ct, &sk);
    assert_eq!(res, Ok(()));

    let m = ToyCpa.decrypt(&ct, &sk[..8]);
    let kr = Sha3Suite.hash_g(&concat(&m, &sk[16..48]));
    assert_eq!(ToyCpa.encrypt(&m, &sk[8..16], &kr[32..]), ct);
    let expected = Sha3Suite.kdf(&concat(&kr[..32], &Sha3Suite.hash_h(&ct)));
    assert_eq!(ss_dec, expected);
    assert_eq!(ss_dec, ss);
}

#[test]
fn round_trip_recovers_the_shared_secret() {
    for i in 0..16u8 {
        let (pk, sk) = seeded_keys(counted(i), counted(i.wrapping_mul(7)));
        for j in 0..4u8 {
            let (ct, ss) = seeded_enc(&pk, &counted(100 + 10 * j + i));
            let (ss_dec, res) = dec(&ct, &sk);
            assert_eq!(res, Ok(()));
            assert_eq!(ss_dec, ss);
        }
    }
}

#[test]
fn round_trip_with_keys_and_seed_from_the_source() {
    let mut rng = CountingRng::new();
    let mut pk = [0u8; TOY_PK];
    let mut sk = [0u8; TOY_KEM_SK];
    assert_eq!(crypto_kem_keypair(&mut pk, &mut sk, &mut rng, None, &ToyCpa, &Sha3Suite), Ok(()));
    let mut ct = [0u8; TOY_CT];
    let mut ss = [0u8; KYBER_SSBYTES];
    assert_eq!(crypto_kem_enc(&mut ct, &mut ss, &pk, &mut rng, None, &ToyCpa, &Sha3Suite), Ok(()));
    assert_eq!(rng.calls, 3);
    let (ss_dec, res) = dec(&ct, &sk);
    assert_eq!(res, Ok(()));
    assert_eq!(ss_dec, ss);
}

#[test]
fn every_flipped_bit_is_rejected() {
    let (pk, sk) = seeded_keys([21u8; 32], [22u8; 32]);
    let (ct, ss) = seeded_enc(&pk, &[23u8; 32]);
    for byte in 0..TOY_CT {
        for bit in 0..8 {
            let mut bad = ct;
            bad[byte] ^= 1 << bit;
            let (ss_dec, res) = dec(&bad, &sk);
            assert_eq!(res, Err(KyberError::DecodeFail));
            assert_ne!(ss_dec, ss);
        }
    }
}

#[test]
fn rejection_derives_the_secret_from_z() {
    let z = counted(77);
    let (pk, sk) = seeded_keys([21u8; 32], z);
    let (ct, _) = seeded_enc(&pk, &[23u8; 32]);
    let mut bad = ct;
    bad[39] ^= 0x80;
    let (ss_dec, res) = dec(&bad, &sk);
    assert_eq!(res, Err(KyberError::DecodeFail));
    let expected = Sha3Suite.kdf(&concat(&z, &Sha3Suite.hash_h(&bad)));
    assert_eq!(ss_dec, expected);
}

#[test]
fn rejection_is_repeatable_and_depends_on_z() {
    let (pk, sk) = seeded_keys([21u8; 32], [1u8; 32]);
    let (_, sk_other_z) = seeded_keys([21u8; 32], [2u8; 32]);
    let (ct, _) = seeded_enc(&pk, &[23u8; 32]);
    let mut bad = ct;
    bad[0] ^= 1;

    let (first, res1) = dec(&bad, &sk);
    let (second, res2) = dec(&bad, &sk);
    assert_eq!(res1, Err(KyberError::DecodeFail));
    assert_eq!(res2, Err(KyberError::DecodeFail));
    assert_eq!(first, second);
    assert_eq!(first.len(), KYBER_SSBYTES);

    let (other, res3) = dec(&bad, &sk_other_z);
    assert_eq!(res3, Err(KyberError::DecodeFail));
    assert_ne!(first, other);

    let (good, res4) = dec(&ct, &sk);
    assert_eq!(res4, Ok(()));
    assert_eq!(good.len(), first.len());
}

#[test]
fn dec_with_another_key_is_rejected() {
    let (pk, _) = seeded_keys([1u8; 32], [2u8; 32]);
    let (_, other_sk) = seeded_keys([3u8; 32], [4u8; 32]);
    let (ct, ss) = seeded_enc(&pk, &[5u8; 32]);
    let (ss_dec, res) = dec(&ct, &other_sk);
    assert_eq!(res, Err(KyberError::DecodeFail));
    assert_ne!(ss_dec, ss);
}

#[test]
fn round_trip_needs_a_scheme_that_decrypts() {
    let d = [1u8; 32];
    let z = [2u8; 32];
    let mut pk = [0u8; TOY_PK];
    let mut sk = [0u8; TOY_KEM_SK];
    crypto_kem_keypair_derand(&mut pk, &mut sk, &d, &z, &BrokenCpa, &Sha3Suite);
    let mut ct = [0u8; TOY_CT];
    let mut ss = [0u8; KYBER_SSBYTES];
    crypto_kem_enc_derand(&mut ct, &mut ss, &pk, &[3u8; 32], &BrokenCpa, &Sha3Suite);
    let mut ss_dec = [0u8; KYBER_SSBYTES];
    let res = crypto_kem_dec(&mut ss_dec, &ct, &sk, &BrokenCpa, &Sha3Suite);
    assert_eq!(res, Err(KyberError::DecodeFail));
    assert_eq!(ss_dec, Sha3Suite.kdf(&concat(&z, &Sha3Suite.hash_h(&ct))));
}

#[test]
fn dec_does_the_same_work_on_both_paths() {
    let (pk, sk) = seeded_keys([31u8; 32], [32u8; 32]);
    let (ct, _) = seeded_enc(&pk, &[33u8; 32]);
    let mut bad = ct;
    bad[20] ^= 4;

    let good_run = Recorder::new();
    let mut ss = [0u8; KYBER_SSBYTES];
    assert_eq!(crypto_kem_dec(&mut ss, &ct, &sk, &good_run, &good_run), Ok(()));

    let bad_run = Recorder::new();
    let mut ss_bad = [0u8; KYBER_SSBYTES];
    assert_eq!(
        crypto_kem_dec(&mut ss_bad, &bad, &sk, &bad_run, &bad_run),
        Err(KyberError::DecodeFail)
    );

    let expected: Vec<(&'static str, Vec<usize>)> = vec![
        ("decrypt", vec![40, 8]),
        ("hash_g", vec![64]),
        ("encrypt", vec![32, 8, 32]),
        ("hash_h", vec![40]),
        ("kdf", vec![64]),
    ];
    assert_eq!(*good_run.log.borrow(), expected);
    assert_eq!(*bad_run.log.borrow(), expected);
}

#[test]
fn two_encapsulations_to_one_key() {
    assert_eq!(KYBER_SYMBYTES, 32);
    let (pk, sk) = seeded_keys(counted(10), counted(50));
    let (ct1, ss1) = seeded_enc(&pk, &counted(1));
    let (ct2, ss2) = seeded_enc(&pk, &counted(2));
    assert_ne!(ct1, ct2);
    assert_ne!(ss1, ss2);
    assert_eq!(dec(&ct1, &sk), (ss1, Ok(())));
    assert_eq!(dec(&ct2, &sk), (ss2, Ok(())));
}

// ------------------------------------------------------- implicit rejection

#[test]
fn implicit_rejection_keeps_the_pre_key_on_a_match() {
    let mut kr = [0u8; 64];
    for i in 0..64 {
        kr[i] = i as u8;
    }
    let ct = [1u8, 2, 3];
    let fail = implicit_rejection(&mut kr, &ct, &[1u8, 2, 3], &[0xccu8; 32], &[0xeeu8; 32]);
    assert_eq!(fail, 0);
    let mut expected = [0xccu8; 64];
    for i in 0..32 {
        expected[i] = i as u8;
    }
    assert_eq!(kr, expected);
}

#[test]
fn implicit_rejection_moves_z_in_on_a_mismatch() {
    let mut kr = [0u8; 64];
    for i in 0..64 {
        kr[i] = i as u8;
    }
    let ct = [1u8, 2, 3];
    let fail = implicit_rejection(&mut kr, &ct, &[1u8, 2, 7], &[0xccu8; 32], &[0xeeu8; 32]);
    assert_eq!(fail, 1);
    let mut expected = [0xccu8; 64];
    for i in 0..32 {
        expected[i] = 0xee;
    }
    assert_eq!(kr, expected);
}

#[test]
fn implicit_rejection_on_empty_ciphertexts() {
    let mut kr = [5u8; 64];
    let fail = implicit_rejection(&mut kr, &[], &[], &[1u8; 32], &[2u8; 32]);
    assert_eq!(fail, 0);
    assert_eq!(&kr[..32], &[5u8; 32][..]);
    assert_eq!(&kr[32..], &[1u8; 32][..]);
}
