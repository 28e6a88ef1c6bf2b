//! Big-endian encoding of 32-bit integers.
use vstd::prelude::*;

verus! {

/// The four big-endian bytes of `d`.
pub open spec fn be32(d: u32) -> Seq<u8> {
    seq![(d >> 24) as u8, (d >> 16) as u8, (d >> 8) as u8, d as u8]
}

/// The integer whose big-endian bytes are the first four of `s`.
pub open spec fn be32_value(s: Seq<u8>) -> u32 {
    ((s[0] as u32) << 24) | ((s[1] as u32) << 16) | ((s[2] as u32) << 8) | (s[3] as u32)
}

/// Reading back the four bytes of `d` gives `d`.
pub proof fn lemma_be32_round_trip(d: u32)
    ensures
        be32_value(be32(d)) == d,
{
    let (a, b, c, e) = ((d >> 24) as u8, (d >> 16) as u8, (d >> 8) as u8, d as u8);
    assert((((a as u32) << 24) | ((b as u32) << 16) | ((c as u32) << 8) | (e as u32)) == d)
        by (bit_vector)
        requires
            a == (d >> 24) as u8,
            b == (d >> 16) as u8,
            c == (d >> 8) as u8,
            e == d as u8,
    ;
}

/// The four big-endian bytes of `d`.
pub fn bytes(d: u32) -> (r: [u8; 4])
    ensures
        r@ == be32(d),
{
    let r = [(d >> 24) as u8, (d >> 16) as u8, (d >> 8) as u8, d as u8];
    assert(r@ =~= be32(d));
    r
}

/// Appends the bytes of `s` to `v`.
pub fn extend_bytes(v: &mut Vec<u8>, s: &[u8])
    ensures
        final(v)@ == old(v)@ + s@,
{
    let mut i: usize = 0;
    while i < s.len()
        invariant
            i <= s@.len(),
            v@ == old(v)@ + s@.subrange(0, i as int),
        decreases s@.len() - i,
    {
        v.push(s[i]);
        assert(s@.subrange(0, i + 1) =~= s@.subrange(0, i as int).push(s@[i as int]));
        i = i + 1;
    }
    assert(s@.subrange(0, s@.len() as int) =~= s@);
}

} // verus!
