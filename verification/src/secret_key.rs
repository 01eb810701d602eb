use vstd::prelude::*;
use crate::params::{secret_key_bytes, KYBER_SYMBYTES};

verus! {

/// The serialized secret key: the encryption scheme's secret key, its public
/// key, the digest of the public key and the rejection value, in this order.
pub open spec fn secret_key_join(
    cpa_secret: Seq<u8>,
    cpa_public: Seq<u8>,
    h_public: Seq<u8>,
    z: Seq<u8>,
) -> Seq<u8> {
    cpa_secret + cpa_public + h_public + z
}

/// The encryption scheme's secret key inside `sk`.
pub open spec fn cpa_secret_part(sk: Seq<u8>, cpa_secret: nat) -> Seq<u8> {
    sk.subrange(0, cpa_secret as int)
}

/// The encryption scheme's public key inside `sk`.
pub open spec fn cpa_public_part(sk: Seq<u8>, cpa_secret: nat, cpa_public: nat) -> Seq<u8> {
    sk.subrange(cpa_secret as int, (cpa_secret + cpa_public) as int)
}

/// The stored digest of the public key inside `sk`.
pub open spec fn h_public_part(sk: Seq<u8>, cpa_secret: nat, cpa_public: nat) -> Seq<u8> {
    sk.subrange((cpa_secret + cpa_public) as int, cpa_secret + cpa_public + KYBER_SYMBYTES)
}

/// The rejection value inside `sk`.
pub open spec fn z_part(sk: Seq<u8>, cpa_secret: nat, cpa_public: nat) -> Seq<u8> {
    sk.subrange(
        cpa_secret + cpa_public + KYBER_SYMBYTES,
        cpa_secret + cpa_public + 2 * KYBER_SYMBYTES,
    )
}

/// A joined key has the full length, and each part read back from it is the
/// part that went in.
pub proof fn lemma_parts_of_join(
    cpa_secret: Seq<u8>,
    cpa_public: Seq<u8>,
    h_public: Seq<u8>,
    z: Seq<u8>,
)
    requires
        h_public.len() == KYBER_SYMBYTES,
        z.len() == KYBER_SYMBYTES,
    ensures
        ({
            let sk = secret_key_join(cpa_secret, cpa_public, h_public, z);
            &&& sk.len() == secret_key_bytes(cpa_secret.len(), cpa_public.len())
            &&& cpa_secret_part(sk, cpa_secret.len()) == cpa_secret
            &&& cpa_public_part(sk, cpa_secret.len(), cpa_public.len()) == cpa_public
            &&& h_public_part(sk, cpa_secret.len(), cpa_public.len()) == h_public
            &&& z_part(sk, cpa_secret.len(), cpa_public.len()) == z
        }),
{
    let sk = secret_key_join(cpa_secret, cpa_public, h_public, z);
    assert(cpa_secret_part(sk, cpa_secret.len()) =~= cpa_secret);
    assert(cpa_public_part(sk, cpa_secret.len(), cpa_public.len()) =~= cpa_public);
    assert(h_public_part(sk, cpa_secret.len(), cpa_public.len()) =~= h_public);
    assert(z_part(sk, cpa_secret.len(), cpa_public.len()) =~= z);
}

/// A key of the full length is the join of its four parts: the layout loses
/// nothing and leaves no byte over, whatever the two key lengths are.
pub proof fn lemma_join_of_parts(sk: Seq<u8>, cpa_secret: nat, cpa_public: nat)
    requires
        sk.len() == secret_key_bytes(cpa_secret, cpa_public),
    ensures
        secret_key_join(
            cpa_secret_part(sk, cpa_secret),
            cpa_public_part(sk, cpa_secret, cpa_public),
            h_public_part(sk, cpa_secret, cpa_public),
            z_part(sk, cpa_secret, cpa_public),
        ) == sk,
        cpa_secret_part(sk, cpa_secret).len() == cpa_secret,
        cpa_public_part(sk, cpa_secret, cpa_public).len() == cpa_public,
        h_public_part(sk, cpa_secret, cpa_public).len() == KYBER_SYMBYTES,
        z_part(sk, cpa_secret, cpa_public).len() == KYBER_SYMBYTES,
{
    assert(secret_key_join(
        cpa_secret_part(sk, cpa_secret),
        cpa_public_part(sk, cpa_secret, cpa_public),
        h_public_part(sk, cpa_secret, cpa_public),
        z_part(sk, cpa_secret, cpa_public),
    ) =~= sk);
}

/// Counted from the end of a key of the full length, the stored digest is the
/// last unit but one and the rejection value the last, whatever the two key
/// lengths are.
pub proof fn lemma_offsets_from_end(sk: Seq<u8>, cpa_secret: nat, cpa_public: nat)
    requires
        sk.len() == secret_key_bytes(cpa_secret, cpa_public),
    ensures
        h_public_part(sk, cpa_secret, cpa_public) == sk.subrange(
            sk.len() - 2 * KYBER_SYMBYTES,
            sk.len() - KYBER_SYMBYTES,
        ),
        z_part(sk, cpa_secret, cpa_public) == sk.subrange(
            sk.len() - KYBER_SYMBYTES,
            sk.len() as int,
        ),
{
}

/// The four fields of a secret key, borrowed from its serialized form.
pub struct SecretKeyParts<'a> {
    /// Secret key of the encryption scheme.
    pub cpa_secret: &'a [u8],
    /// Public key of the encryption scheme.
    pub cpa_public: &'a [u8],
    /// Digest of the public key, stored when the key was made.
    pub h_public: &'a [u8],
    /// Rejection value, used only when decapsulation fails.
    pub z: &'a [u8],
}

/// Reads the four fields of the serialized secret key `sk`, for an encryption
/// scheme with secret keys of `cpa_secret` and public keys of `cpa_public` bytes.
pub fn split_secret_key<'a>(sk: &'a [u8], cpa_secret: usize, cpa_public: usize) -> (parts:
    SecretKeyParts<'a>)
    requires
        sk@.len() == secret_key_bytes(cpa_secret as nat, cpa_public as nat),
    ensures
        parts.cpa_secret@ == cpa_secret_part(sk@, cpa_secret as nat),
        parts.cpa_public@ == cpa_public_part(sk@, cpa_secret as nat, cpa_public as nat),
        parts.h_public@ == h_public_part(sk@, cpa_secret as nat, cpa_public as nat),
        parts.z@ == z_part(sk@, cpa_secret as nat, cpa_public as nat),
        parts.cpa_secret@.len() == cpa_secret,
        parts.cpa_public@.len() == cpa_public,
        parts.h_public@.len() == KYBER_SYMBYTES,
        parts.z@.len() == KYBER_SYMBYTES,
{
    let total: usize = sk.len();
    assert(total == secret_key_bytes(cpa_secret as nat, cpa_public as nat));
    let pk_start: usize = cpa_secret;
    let h_start: usize = pk_start + cpa_public;
    let z_start: usize = h_start + KYBER_SYMBYTES;
    let end: usize = z_start + KYBER_SYMBYTES;
    SecretKeyParts {
        cpa_secret: &sk[0..pk_start],
        cpa_public: &sk[pk_start..h_start],
        h_public: &sk[h_start..z_start],
        z: &sk[z_start..end],
    }
}

/// Overwrites `dst[offset .. offset + src.len()]` with `src` and leaves the
/// rest of `dst` as it is.
pub fn copy_bytes(dst: &mut [u8], offset: usize, src: &[u8])
    requires
        offset + src@.len() <= old(dst)@.len(),
    ensures
        final(dst)@.len() == old(dst)@.len(),
        final(dst)@ == old(dst)@.subrange(0, offset as int) + src@ + old(dst)@.subrange(
            offset + src@.len(),
            old(dst)@.len() as int,
        ),
{
    let n: usize = src.len();
    let total: usize = dst.len();
    let mut i: usize = 0;
    while i < n
        invariant
            i <= n,
            total == dst@.len(),
            n == src@.len(),
            offset + n <= dst@.len(),
            dst@.len() == old(dst)@.len(),
            forall|j: int| 0 <= j < offset ==> dst@[j] == old(dst)@[j],
            forall|j: int| 0 <= j < i ==> dst@[offset + j] == src@[j],
            forall|j: int| offset + i <= j < dst@.len() ==> dst@[j] == old(dst)@[j],
        decreases n - i,
    {
        dst[offset + i] = src[i];
        i += 1;
    }
    assert(dst@ =~= old(dst)@.subrange(0, offset as int) + src@ + old(dst)@.subrange(
        offset + src@.len(),
        old(dst)@.len() as int,
    ));
}

/// Serializes a secret key into `sk`: the four fields one after another.
pub fn pack_secret_key(sk: &mut [u8], cpa_secret: &[u8], cpa_public: &[u8], h_public: &[u8], z: &[u8])
    requires
        h_public@.len() == KYBER_SYMBYTES,
        z@.len() == KYBER_SYMBYTES,
        old(sk)@.len() == secret_key_bytes(cpa_secret@.len(), cpa_public@.len()),
    ensures
        final(sk)@.len() == old(sk)@.len(),
        final(sk)@ == secret_key_join(cpa_secret@, cpa_public@, h_public@, z@),
{
    let total: usize = sk.len();
    assert(total == secret_key_bytes(cpa_secret@.len(), cpa_public@.len()));
    let pk_start: usize = cpa_secret.len();
    let h_start: usize = pk_start + cpa_public.len();
    let z_start: usize = h_start + KYBER_SYMBYTES;
    copy_bytes(sk, 0, cpa_secret);
    copy_bytes(sk, pk_start, cpa_public);
    copy_bytes(sk, h_start, h_public);
    copy_bytes(sk, z_start, z);
    assert(sk@ =~= secret_key_join(cpa_secret@, cpa_public@, h_public@, z@));
}

} // verus!
