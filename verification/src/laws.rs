use vstd::prelude::*;
use crate::api::{
    coins, decaps_relation, decaps_steps, encaps_relation, encaps_steps, kdf_input,
    keypair_relation, keypair_steps, DecapsTrace, EncapsTrace, KeypairTrace,
};
use crate::params::{KYBER_SSBYTES, KYBER_SYMBYTES};
use crate::primitives::{
    decrypt_deterministic, decrypt_of, encrypt_deterministic, encrypt_of, g_of, h_of, kdf_of,
    keypair_deterministic, symmetric_deterministic, CpaKem, Symmetric,
};
use crate::secret_key::{
    cpa_public_part, cpa_secret_part, h_public_part, lemma_parts_of_join, z_part,
};

verus! {

/// With the secret key `sk`, the encryption scheme decrypts `ct` to the
/// message that was encrypted to `target` under `pk`, whatever the coins were.
/// For `ct == target` this is the scheme's correctness on one ciphertext.
pub open spec fn decrypts_as<const PK: usize, const SK: usize, const CT: usize, C: CpaKem<PK, SK, CT>>(
    c: &C,
    pk: Seq<u8>,
    sk: Seq<u8>,
    ct: Seq<u8>,
    target: Seq<u8>,
) -> bool {
    forall|msg: Seq<u8>, coins: Seq<u8>, out: Seq<u8>|
        #[trigger] encrypt_of(c, msg, pk, coins, target) && #[trigger] decrypt_of(c, ct, sk, out)
            ==> out == msg
}

/// Key generation is repeatable: when the primitives are functions, two runs
/// on the same seeds give the same public and the same secret key.
pub proof fn lemma_keypair_deterministic<const PK: usize, const SK: usize, const CT: usize, C: CpaKem<PK, SK, CT>, S: Symmetric>(
    c: &C,
    s: &S,
    d: Seq<u8>,
    z: Seq<u8>,
    pk1: Seq<u8>,
    sk1: Seq<u8>,
    pk2: Seq<u8>,
    sk2: Seq<u8>,
)
    requires
        symmetric_deterministic(s),
        keypair_deterministic(c),
        keypair_relation(c, s, d, z, pk1, sk1),
        keypair_relation(c, s, d, z, pk2, sk2),
    ensures
        pk1 == pk2,
        sk1 == sk2,
{
    let t1 = choose|t: KeypairTrace| keypair_steps(c, s, d, z, pk1, sk1, t);
    let t2 = choose|t: KeypairTrace| keypair_steps(c, s, d, z, pk2, sk2, t);
    assert(pk1 == pk2 && t1.cpa_secret == t2.cpa_secret);
    assert(t1.h_public == t2.h_public);
}

/// Encapsulation is repeatable: when the primitives are functions, two runs
/// on the same public key and seed give the same ciphertext and the same
/// shared secret.
pub proof fn lemma_encaps_deterministic<const PK: usize, const SK: usize, const CT: usize, C: CpaKem<PK, SK, CT>, S: Symmetric>(
    c: &C,
    s: &S,
    pk: Seq<u8>,
    m: Seq<u8>,
    ct1: Seq<u8>,
    ss1: Seq<u8>,
    ct2: Seq<u8>,
    ss2: Seq<u8>,
)
    requires
        symmetric_deterministic(s),
        encrypt_deterministic(c),
        encaps_relation(c, s, pk, m, ct1, ss1),
        encaps_relation(c, s, pk, m, ct2, ss2),
    ensures
        ct1 == ct2,
        ss1 == ss2,
{
    let t1 = choose|t: EncapsTrace| encaps_steps(c, s, pk, m, ct1, ss1, t);
    let t2 = choose|t: EncapsTrace| encaps_steps(c, s, pk, m, ct2, ss2, t);
    assert(t1.h_m == t2.h_m);
    assert(t1.h_pk == t2.h_pk);
    assert(t1.kr == t2.kr);
    assert(ct1 == ct2);
    assert(t1.h_ct == t2.h_ct);
}

/// Decapsulation is repeatable, on the failing path as on the other: when the
/// primitives are functions, two runs on the same ciphertext and secret key
/// give the same status and the same shared secret.
pub proof fn lemma_decaps_deterministic<const PK: usize, const SK: usize, const CT: usize, C: CpaKem<PK, SK, CT>, S: Symmetric>(
    c: &C,
    s: &S,
    ct: Seq<u8>,
    sk: Seq<u8>,
    ss1: Seq<u8>,
    fail1: bool,
    ss2: Seq<u8>,
    fail2: bool,
)
    requires
        symmetric_deterministic(s),
        encrypt_deterministic(c),
        decrypt_deterministic(c),
        decaps_relation(c, s, ct, sk, ss1, fail1),
        decaps_relation(c, s, ct, sk, ss2, fail2),
    ensures
        fail1 == fail2,
        ss1 == ss2,
{
    let t1 = choose|t: DecapsTrace| decaps_steps(c, s, ct, sk, ss1, fail1, t);
    let t2 = choose|t: DecapsTrace| decaps_steps(c, s, ct, sk, ss2, fail2, t);
    assert(t1.m == t2.m);
    assert(t1.kr == t2.kr);
    assert(t1.reenc == t2.reenc);
    assert(t1.h_ct == t2.h_ct);
}

/// Round trip: a ciphertext made by encapsulation to `pk` is accepted by
/// decapsulation with the matching `sk`, and both sides hold the same shared
/// secret. It holds when the primitives are functions and the encryption
/// scheme decrypts this one ciphertext to the message that went into it.
pub proof fn lemma_round_trip<const PK: usize, const SK: usize, const CT: usize, C: CpaKem<PK, SK, CT>, S: Symmetric>(
    c: &C,
    s: &S,
    d: Seq<u8>,
    z: Seq<u8>,
    m: Seq<u8>,
    pk: Seq<u8>,
    sk: Seq<u8>,
    ct: Seq<u8>,
    ss: Seq<u8>,
    ss_dec: Seq<u8>,
    fail: bool,
)
    requires
        symmetric_deterministic(s),
        encrypt_deterministic(c),
        z.len() == KYBER_SYMBYTES,
        keypair_relation(c, s, d, z, pk, sk),
        encaps_relation(c, s, pk, m, ct, ss),
        decaps_relation(c, s, ct, sk, ss_dec, fail),
        decrypts_as(c, pk, cpa_secret_part(sk, SK as nat), ct, ct),
    ensures
        !fail,
        ss_dec == ss,
{
    let tk = choose|t: KeypairTrace| keypair_steps(c, s, d, z, pk, sk, t);
    let te = choose|t: EncapsTrace| encaps_steps(c, s, pk, m, ct, ss, t);
    let td = choose|t: DecapsTrace| decaps_steps(c, s, ct, sk, ss_dec, fail, t);
    lemma_key_parts(c, s, d, z, pk, sk, tk);
    assert(td.m == te.h_m);
    assert(tk.h_public == te.h_pk);
    assert(td.kr == te.kr);
    assert(td.reenc == ct);
    assert(td.h_ct == te.h_ct);
}

/// Tampering: a ciphertext other than the one that encapsulation made, which
/// still decrypts to the same message, is rejected. It holds when the
/// primitives are functions.
pub proof fn lemma_altered_ciphertext_rejected<const PK: usize, const SK: usize, const CT: usize, C: CpaKem<PK, SK, CT>, S: Symmetric>(
    c: &C,
    s: &S,
    d: Seq<u8>,
    z: Seq<u8>,
    m: Seq<u8>,
    pk: Seq<u8>,
    sk: Seq<u8>,
    ct: Seq<u8>,
    ss: Seq<u8>,
    altered: Seq<u8>,
    ss_dec: Seq<u8>,
    fail: bool,
)
    requires
        symmetric_deterministic(s),
        encrypt_deterministic(c),
        z.len() == KYBER_SYMBYTES,
        keypair_relation(c, s, d, z, pk, sk),
        encaps_relation(c, s, pk, m, ct, ss),
        altered != ct,
        decaps_relation(c, s, altered, sk, ss_dec, fail),
        decrypts_as(c, pk, cpa_secret_part(sk, SK as nat), altered, ct),
    ensures
        fail,
{
    let tk = choose|t: KeypairTrace| keypair_steps(c, s, d, z, pk, sk, t);
    let te = choose|t: EncapsTrace| encaps_steps(c, s, pk, m, ct, ss, t);
    let td = choose|t: DecapsTrace| decaps_steps(c, s, altered, sk, ss_dec, fail, t);
    lemma_key_parts(c, s, d, z, pk, sk, tk);
    assert(td.m == te.h_m);
    assert(tk.h_public == te.h_pk);
    assert(td.kr == te.kr);
    assert(td.reenc == ct);
}

/// An accepted ciphertext is the encryption of its own decryption: under the
/// public key stored in `sk`, with the coins that message and stored digest
/// hash to. Whatever is not of this form is rejected.
pub proof fn lemma_accepted_ciphertext_reencrypts<const PK: usize, const SK: usize, const CT: usize, C: CpaKem<PK, SK, CT>, S: Symmetric>(
    c: &C,
    s: &S,
    ct: Seq<u8>,
    sk: Seq<u8>,
    ss: Seq<u8>,
)
    requires
        decaps_relation(c, s, ct, sk, ss, false),
    ensures
        exists|m: Seq<u8>, kr: Seq<u8>|
            {
                &&& decrypt_of(c, ct, cpa_secret_part(sk, SK as nat), m)
                &&& #[trigger] g_of(s, m + h_public_part(sk, SK as nat, PK as nat), kr)
                &&& encrypt_of(c, m, cpa_public_part(sk, SK as nat, PK as nat), coins(kr), ct)
            },
{
    let t = choose|t: DecapsTrace| decaps_steps(c, s, ct, sk, ss, false, t);
    assert(t.reenc == ct);
    assert(g_of(s, t.m + h_public_part(sk, SK as nat, PK as nat), t.kr));
}

/// The shared secret has the same length whether the ciphertext was
/// accepted or rejected.
pub proof fn lemma_shared_secret_length<const PK: usize, const SK: usize, const CT: usize, C: CpaKem<PK, SK, CT>, S: Symmetric>(
    c: &C,
    s: &S,
    ct: Seq<u8>,
    sk: Seq<u8>,
    ss: Seq<u8>,
    fail: bool,
)
    requires
        decaps_relation(c, s, ct, sk, ss, fail),
    ensures
        ss.len() == KYBER_SSBYTES,
{
    let t = choose|t: DecapsTrace| decaps_steps(c, s, ct, sk, ss, fail, t);
}

/// A rejected ciphertext gets a shared secret that is derived from the
/// rejection value and the digest of the ciphertext, and from nothing else.
pub proof fn lemma_rejection_secret<const PK: usize, const SK: usize, const CT: usize, C: CpaKem<PK, SK, CT>, S: Symmetric>(
    c: &C,
    s: &S,
    ct: Seq<u8>,
    sk: Seq<u8>,
    ss: Seq<u8>,
)
    requires
        decaps_relation(c, s, ct, sk, ss, true),
    ensures
        exists|h_ct: Seq<u8>|
            #[trigger] h_of(s, ct, h_ct) && kdf_of(s, z_part(sk, SK as nat, PK as nat) + h_ct, ss),
{
    let t = choose|t: DecapsTrace| decaps_steps(c, s, ct, sk, ss, true, t);
    assert(kdf_input(t.kr, t.h_ct, z_part(sk, SK as nat, PK as nat), true) == z_part(
        sk,
        SK as nat,
        PK as nat,
    ) + t.h_ct);
    assert(h_of(s, ct, t.h_ct));
}

/// Two secret keys with different rejection values derive their secrets for
/// one rejected ciphertext from different inputs: the two secrets agree only
/// where the key derivation maps both inputs to the same output.
pub proof fn lemma_rejection_depends_on_z<const PK: usize, const SK: usize, const CT: usize, C: CpaKem<PK, SK, CT>, S: Symmetric>(
    c: &C,
    s: &S,
    ct: Seq<u8>,
    sk1: Seq<u8>,
    sk2: Seq<u8>,
    ss1: Seq<u8>,
    ss2: Seq<u8>,
)
    requires
        symmetric_deterministic(s),
        decaps_relation(c, s, ct, sk1, ss1, true),
        decaps_relation(c, s, ct, sk2, ss2, true),
        z_part(sk1, SK as nat, PK as nat) != z_part(sk2, SK as nat, PK as nat),
        z_part(sk1, SK as nat, PK as nat).len() == z_part(sk2, SK as nat, PK as nat).len(),
    ensures
        exists|i1: Seq<u8>, i2: Seq<u8>|
            i1 != i2 && #[trigger] kdf_of(s, i1, ss1) && #[trigger] kdf_of(s, i2, ss2),
{
    let z1 = z_part(sk1, SK as nat, PK as nat);
    let z2 = z_part(sk2, SK as nat, PK as nat);
    let t1 = choose|t: DecapsTrace| decaps_steps(c, s, ct, sk1, ss1, true, t);
    let t2 = choose|t: DecapsTrace| decaps_steps(c, s, ct, sk2, ss2, true, t);
    assert(t1.h_ct == t2.h_ct);
    let i1 = z1 + t1.h_ct;
    let i2 = z2 + t2.h_ct;
    assert(i1.subrange(0, z1.len() as int) =~= z1);
    assert(i2.subrange(0, z2.len() as int) =~= z2);
    assert(i1 == kdf_input(t1.kr, t1.h_ct, z1, true));
    assert(i2 == kdf_input(t2.kr, t2.h_ct, z2, true));
    assert(kdf_of(s, i1, ss1) && kdf_of(s, i2, ss2));
}

/// The parts that decapsulation reads from a generated secret key are the
/// ones that key generation stored in it.
proof fn lemma_key_parts<const PK: usize, const SK: usize, const CT: usize, C: CpaKem<PK, SK, CT>, S: Symmetric>(
    c: &C,
    s: &S,
    d: Seq<u8>,
    z: Seq<u8>,
    pk: Seq<u8>,
    sk: Seq<u8>,
    t: KeypairTrace,
)
    requires
        z.len() == KYBER_SYMBYTES,
        keypair_steps(c, s, d, z, pk, sk, t),
    ensures
        pk.len() == PK,
        t.cpa_secret.len() == SK,
        cpa_secret_part(sk, SK as nat) == t.cpa_secret,
        cpa_public_part(sk, SK as nat, PK as nat) == pk,
        h_public_part(sk, SK as nat, PK as nat) == t.h_public,
        z_part(sk, SK as nat, PK as nat) == z,
{
    lemma_parts_of_join(t.cpa_secret, pk, t.h_public, z);
}

} // verus!
