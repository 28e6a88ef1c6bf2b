//! The Adler-32 checksum that closes a zlib stream.
use vstd::prelude::*;

verus! {

/// The modulus of both Adler-32 sums: the largest prime below 2^16.
pub const ADLER_MOD: u32 = 65521;

/// The first sum: one plus the bytes, modulo `ADLER_MOD`, reduced after each byte.
pub open spec fn adler_s1(s: Seq<u8>) -> nat
    decreases s.len(),
{
    if s.len() == 0 {
        1
    } else {
        ((adler_s1(s.drop_last()) + s.last()) as int % (ADLER_MOD as int)) as nat
    }
}

/// The second sum: the running total of the first sum after each byte,
/// modulo `ADLER_MOD`.
pub open spec fn adler_s2(s: Seq<u8>) -> nat
    decreases s.len(),
{
    if s.len() == 0 {
        0
    } else {
        ((adler_s2(s.drop_last()) + adler_s1(s)) as int % (ADLER_MOD as int)) as nat
    }
}

/// The Adler-32 checksum of `s`: the second sum in the high half, the first
/// in the low half.
pub open spec fn adler32_spec(s: Seq<u8>) -> nat {
    adler_s2(s) * 65536 + adler_s1(s)
}

proof fn lemma_adler_sums_bounded(s: Seq<u8>)
    ensures
        adler_s1(s) < ADLER_MOD,
        adler_s2(s) < ADLER_MOD,
    decreases s.len(),
{
    if s.len() > 0 {
        lemma_adler_sums_bounded(s.drop_last());
    }
}

/// The Adler-32 checksum of `bytes`.
pub fn adler32(bytes: &[u8]) -> (r: u32)
    ensures
        r == adler32_spec(bytes@),
        bytes@.len() == 0 ==> r == 1,
{
    let mut s1: u32 = 1;
    let mut s2: u32 = 0;
    let mut i: usize = 0;
    while i < bytes.len()
        invariant
            i <= bytes@.len(),
            s1 == adler_s1(bytes@.subrange(0, i as int)),
            s2 == adler_s2(bytes@.subrange(0, i as int)),
        decreases bytes@.len() - i,
    {
        proof {
            lemma_adler_sums_bounded(bytes@.subrange(0, i as int));
        }
        let b: u8 = bytes[i];
        s1 = (s1 + b as u32) % ADLER_MOD;
        s2 = (s2 + s1) % ADLER_MOD;
        assert(bytes@.subrange(0, i + 1).drop_last() =~= bytes@.subrange(0, i as int));
        i = i + 1;
    }
    assert(bytes@.subrange(0, bytes@.len() as int) =~= bytes@);
    proof {
        lemma_adler_sums_bounded(bytes@);
    }
    s2 * 65536 + s1
}

} // verus!
