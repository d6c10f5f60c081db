//! XOR checksum over a byte range, used both to stamp outgoing frames and
//! to validate incoming ones: the fold of all bytes, masked to 7 bits.

use vstd::prelude::*;

verus! {

/// XOR fold of a byte sequence, starting from zero.
pub open spec fn xor_fold(s: Seq<u8>) -> u8
    decreases s.len(),
{
    if s.len() == 0 {
        0u8
    } else {
        xor_fold(s.drop_last()) ^ s.last()
    }
}

/// The checksum of a byte range: the XOR fold masked to the low 7 bits.
pub open spec fn spec_checksum(s: Seq<u8>) -> u8 {
    xor_fold(s) & 0x7F
}

/// Whether a received checksum byte matches the bytes it covers.
pub open spec fn spec_validate(s: Seq<u8>, crc: u8) -> bool {
    crc == spec_checksum(s)
}

proof fn lemma_xor_fold_step(s: Seq<u8>, i: int)
    requires
        0 <= i < s.len(),
    ensures
        xor_fold(s.take(i + 1)) == xor_fold(s.take(i)) ^ s[i],
{
    assert(s.take(i + 1).drop_last() =~= s.take(i));
    assert(s.take(i + 1).last() == s[i]);
}

/// XOR checksum of a whole byte slice; zero when the slice is shorter
/// than two bytes.
pub fn calc_checksum(sysex: &[u8]) -> (r: u8)
    ensures
        sysex@.len() < 2 ==> r == 0,
        sysex@.len() >= 2 ==> r == spec_checksum(sysex@),
{
    if sysex.len() < 2 {
        return 0;
    }

    let mut sum: u8 = sysex[0];
    let mut i: usize = 1;
    proof {
        assert(xor_fold(Seq::<u8>::empty()) == 0);
        assert(sysex@.take(1).drop_last() =~= Seq::<u8>::empty());
        assert(sysex@.take(1).last() == sysex@[0]);
        let x = sysex@[0];
        assert(0u8 ^ x == x) by (bit_vector);
        assert(sum == xor_fold(sysex@.take(1)));
    }
    while i < sysex.len()
        invariant
            1 <= i <= sysex@.len(),
            sum == xor_fold(sysex@.take(i as int)),
        decreases sysex@.len() - i,
    {
        proof {
            lemma_xor_fold_step(sysex@, i as int);
        }
        sum = sum ^ sysex[i];
        i = i + 1;
    }
    proof {
        assert(sysex@.take(sysex@.len() as int) =~= sysex@);
    }
    sum & 0x7F
}

/// Whether `crc` is the checksum of `bytes`.
pub fn validate(bytes: &[u8], crc: u8) -> (r: bool)
    requires
        bytes@.len() >= 2,
    ensures
        r == spec_validate(bytes@, crc),
{
    calc_checksum(bytes) == crc
}

/// The checksum round-trip law: for every byte sequence of length at least
/// two, the checksum it was stamped with validates against it.
pub proof fn lemma_checksum_round_trip(bytes: Seq<u8>)
    requires
        bytes.len() >= 2,
    ensures
        spec_validate(bytes, spec_checksum(bytes)),
{
}

proof fn lemma_xor_fold_update(s: Seq<u8>, i: int, mask: u8)
    requires
        0 <= i < s.len(),
    ensures
        xor_fold(s.update(i, s[i] ^ mask)) == xor_fold(s) ^ mask,
    decreases s.len(),
{
    let t = s.update(i, s[i] ^ mask);
    if i == s.len() - 1 {
        assert(t.drop_last() =~= s.drop_last());
        assert(t.last() == s[i] ^ mask);
        let f = xor_fold(s.drop_last());
        let x = s[i];
        assert(f ^ (x ^ mask) == (f ^ x) ^ mask) by (bit_vector);
    } else {
        assert(t.drop_last() =~= s.drop_last().update(i, s[i] ^ mask));
        assert(t.last() == s.last());
        lemma_xor_fold_update(s.drop_last(), i, mask);
        let f = xor_fold(s.drop_last());
        let x = s.last();
        assert((f ^ mask) ^ x == (f ^ x) ^ mask) by (bit_vector);
    }
}

/// Corrupting any one byte in any of its low seven bits changes the
/// checksum, so the stamped checksum of the original no longer validates:
/// single-bit corruption below the 7-bit mask boundary is always detected.
pub proof fn lemma_checksum_detects_corruption(bytes: Seq<u8>, i: int, mask: u8)
    requires
        bytes.len() >= 2,
        0 <= i < bytes.len(),
        mask & 0x7F != 0,
    ensures
        !spec_validate(bytes.update(i, bytes[i] ^ mask), spec_checksum(bytes)),
{
    lemma_xor_fold_update(bytes, i, mask);
    let f = xor_fold(bytes);
    assert(mask & 0x7F != 0 ==> (f ^ mask) & 0x7F != f & 0x7F) by (bit_vector);
}

/// Two byte sequences that differ in the low seven bits of exactly one
/// position have different checksums.
pub proof fn lemma_checksum_differs(a: Seq<u8>, b: Seq<u8>, i: int)
    requires
        a.len() == b.len(),
        0 <= i < a.len(),
        a[i] & 0x7F != b[i] & 0x7F,
        forall|j: int| 0 <= j < a.len() && j != i ==> a[j] == b[j],
    ensures
        spec_checksum(a) != spec_checksum(b),
{
    let mask = (a[i] ^ b[i]) as u8;
    let x = a[i];
    let y = b[i];
    assert(x & 0x7F != y & 0x7F ==> (x ^ y) & 0x7F != 0) by (bit_vector);
    assert(x ^ (x ^ y) == y) by (bit_vector);
    assert(b =~= a.update(i, a[i] ^ mask));
    lemma_xor_fold_update(a, i, mask);
    let f = xor_fold(a);
    assert(mask & 0x7F != 0 ==> (f ^ mask) & 0x7F != f & 0x7F) by (bit_vector);
}

} // verus!
