//! The rolling 16-bit checksum that closes every frame.

use vstd::prelude::*;

verus! {

/// Initial value of the accumulator. The two orientation-marker bytes are
/// never summed; either marker adds up to `0xFF`, which the seed supplies.
pub const CHECKSUM_SEED: u16 = 0x00FF;

/// Plain (unbounded) sum of a byte sequence.
pub open spec fn byte_sum(bytes: Seq<u8>) -> int
    decreases bytes.len(),
{
    if bytes.len() == 0 {
        0
    } else {
        byte_sum(bytes.drop_last()) + bytes.last() as int
    }
}

/// The checksum of `bytes`: the seed plus every byte, modulo 2^16.
pub open spec fn checksum_of(bytes: Seq<u8>) -> u16 {
    ((CHECKSUM_SEED as int + byte_sum(bytes)) % 0x1_0000) as u16
}

/// The sum of a sequence splits over concatenation.
pub proof fn lemma_byte_sum_concat(a: Seq<u8>, b: Seq<u8>)
    ensures
        byte_sum(a + b) == byte_sum(a) + byte_sum(b),
    decreases b.len(),
{
    if b.len() == 0 {
        assert(a + b =~= a);
    } else {
        assert((a + b).drop_last() =~= a + b.drop_last());
        lemma_byte_sum_concat(a, b.drop_last());
    }
}

/// Replacing one byte moves the sum by the difference of the two bytes.
pub proof fn lemma_byte_sum_update(s: Seq<u8>, k: int, v: u8)
    requires
        0 <= k < s.len(),
    ensures
        byte_sum(s.update(k, v)) == byte_sum(s) - s[k] as int + v as int,
    decreases s.len(),
{
    if k == s.len() - 1 {
        assert(s.update(k, v).drop_last() =~= s.drop_last());
    } else {
        assert(s.update(k, v).drop_last() =~= s.drop_last().update(k, v));
        lemma_byte_sum_update(s.drop_last(), k, v);
    }
}

/// Computes the checksum of `bytes` with wrapping 16-bit addition.
pub fn checksum(bytes: &[u8]) -> (sum: u16)
    ensures
        sum == checksum_of(bytes@),
{
    let mut acc: u16 = CHECKSUM_SEED;
    let mut i: usize = 0;
    while i < bytes.len()
        invariant
            i <= bytes.len(),
            acc as int == (CHECKSUM_SEED as int + byte_sum(bytes@.take(i as int))) % 0x1_0000,
        decreases bytes.len() - i,
    {
        proof {
            assert(bytes@.take(i as int + 1).drop_last() =~= bytes@.take(i as int));
        }
        acc = acc.wrapping_add(bytes[i] as u16);
        i += 1;
    }
    proof {
        assert(bytes@.take(i as int) =~= bytes@);
    }
    acc
}

} // verus!
