use vstd::prelude::*;

verus! {

/// The byte that a masked move leaves in place of `r` when the source byte is
/// `x` and the condition byte is `b`: every bit of the negated condition picks
/// between the two. For `b == 0` that is `r`, for `b == 1` it is `x`.
pub open spec fn select_byte(r: u8, x: u8, b: u8) -> u8 {
    r ^ (0u8.wrapping_sub(b) & (x ^ r))
}

/// The two condition values that callers pass select one byte or the other whole.
pub proof fn lemma_select_byte(r: u8, x: u8)
    ensures
        select_byte(r, x, 0) == r,
        select_byte(r, x, 1) == x,
{
    assert(0u8.wrapping_sub(0u8) == 0u8);
    assert(0u8.wrapping_sub(1u8) == 0xffu8);
    assert(r ^ (0u8 & (x ^ r)) == r) by (bit_vector);
    assert(r ^ (0xffu8 & (x ^ r)) == x) by (bit_vector);
}

/// Compares the first `len` bytes of `a` and `b` without leaving early:
/// returns 0 when they agree and 1 when they differ anywhere.
pub fn verify(a: &[u8], b: &[u8], len: usize) -> (r: u8)
    requires
        len <= a@.len(),
        len <= b@.len(),
    ensures
        r == (if a@.subrange(0, len as int) == b@.subrange(0, len as int) {
            0u8
        } else {
            1u8
        }),
{
    let mut acc: u8 = 0;
    let mut i: usize = 0;
    while i < len
        invariant
            i <= len,
            len <= a@.len(),
            len <= b@.len(),
            (acc == 0) <==> (forall|j: int| 0 <= j < i ==> a@[j] == b@[j]),
        decreases len - i,
    {
        let d: u8 = a[i] ^ b[i];
        let prev: u8 = acc;
        acc = acc | d;
        proof {
            let ai = a@[i as int];
            let bi = b@[i as int];
            assert((ai ^ bi == 0) <==> ai == bi) by (bit_vector);
            assert(((prev | d) == 0) <==> (prev == 0 && d == 0)) by (bit_vector);
        }
        i += 1;
    }
    let wide: u64 = acc as u64;
    let neg: u64 = 0u64.wrapping_sub(wide);
    let top: u64 = neg >> 63;
    proof {
        assert(wide == 0 ==> neg == 0);
        assert(wide != 0 ==> neg >= 0x8000_0000_0000_0000u64);
        assert(neg == 0 ==> neg >> 63 == 0) by (bit_vector);
        assert(neg >= 0x8000_0000_0000_0000u64 ==> neg >> 63 == 1) by (bit_vector);
        let sa = a@.subrange(0, len as int);
        let sb = b@.subrange(0, len as int);
        if acc == 0 {
            assert(sa =~= sb);
        } else {
            let j = choose|j: int| 0 <= j < len && a@[j] != b@[j];
            assert(sa[j] != sb[j]);
        }
    }
    top as u8
}

/// Moves the first `len` bytes of `x` over those of `r` when `b` is 1 and
/// leaves `r` as it is when `b` is 0, doing the same work either way.
pub fn cmov(r: &mut [u8], x: &[u8], len: usize, b: u8)
    requires
        len <= old(r)@.len(),
        len <= x@.len(),
    ensures
        final(r)@.len() == old(r)@.len(),
        forall|i: int| 0 <= i < len ==> final(r)@[i] == select_byte(old(r)@[i], x@[i], b),
        forall|i: int| len <= i < old(r)@.len() ==> final(r)@[i] == old(r)@[i],
        b == 0 ==> final(r)@ == old(r)@,
        b == 1 ==> final(r)@ == x@.subrange(0, len as int) + old(r)@.subrange(
            len as int,
            old(r)@.len() as int,
        ),
{
    let mask: u8 = 0u8.wrapping_sub(b);
    let mut i: usize = 0;
    while i < len
        invariant
            i <= len,
            len <= r@.len(),
            len <= x@.len(),
            r@.len() == old(r)@.len(),
            mask == 0u8.wrapping_sub(b),
            forall|j: int| 0 <= j < i ==> r@[j] == select_byte(old(r)@[j], x@[j], b),
            forall|j: int| i <= j < r@.len() ==> r@[j] == old(r)@[j],
        decreases len - i,
    {
        let cur: u8 = r[i];
        r[i] = cur ^ (mask & (x[i] ^ cur));
        i += 1;
    }
    proof {
        assert forall|j: int| 0 <= j < len implies (b == 0 ==> r@[j] == old(r)@[j]) && (b == 1
            ==> r@[j] == x@[j]) by {
            lemma_select_byte(old(r)@[j], x@[j]);
        }
        if b == 0 {
            assert(r@ =~= old(r)@);
        }
        if b == 1 {
            assert(r@ =~= x@.subrange(0, len as int) + old(r)@.subrange(
                len as int,
                old(r)@.len() as int,
            ));
        }
    }
}

} // verus!
