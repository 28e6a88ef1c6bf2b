//! The CRC-32 used by PNG chunks (reflected polynomial `0xedb88320`,
//! all-ones initial value and final XOR), driven by a 256-entry table.
use vstd::prelude::*;

verus! {

/// The reflected CRC-32 polynomial.
pub const CRC_POLY: u32 = 0xedb88320;

/// One bit step of the CRC register: shift right, folding in the
/// polynomial when the bit shifted out is set.
pub open spec fn crc_shift(c: u32) -> u32 {
    if c & 1 != 0 {
        CRC_POLY ^ (c >> 1)
    } else {
        c >> 1
    }
}

/// `k` bit steps applied to `c`.
pub open spec fn crc_shifts(c: u32, k: nat) -> u32
    decreases k,
{
    if k == 0 {
        c
    } else {
        crc_shift(crc_shifts(c, (k - 1) as nat))
    }
}

/// Entry `n` of the CRC table: eight bit steps applied to `n`.
pub open spec fn crc_table_entry(n: u32) -> u32 {
    crc_shifts(n, 8)
}

/// The register after feeding one byte.
pub open spec fn crc_step(c: u32, b: u8) -> u32 {
    crc_table_entry((c ^ (b as u32)) & 0xff) ^ (c >> 8)
}

/// The register after feeding the bytes of `s` in order, starting from `c`.
pub open spec fn crc_update_spec(c: u32, s: Seq<u8>) -> u32
    decreases s.len(),
{
    if s.len() == 0 {
        c
    } else {
        crc_step(crc_update_spec(c, s.drop_last()), s.last())
    }
}

/// The CRC-32 checksum of `s`.
pub open spec fn crc_spec(s: Seq<u8>) -> u32 {
    crc_update_spec(0xffffffff, s) ^ 0xffffffff
}

/// Builds the 256-entry lookup table.
pub fn make_crc_table() -> (r: Vec<u32>)
    ensures
        r@.len() == 256,
        forall|n: int| 0 <= n < 256 ==> #[trigger] r@[n] == crc_table_entry(n as u32),
{
    let mut crc_table: Vec<u32> = Vec::with_capacity(256);
    let mut n: u32 = 0;
    while n < 256
        invariant
            n <= 256,
            crc_table@.len() == n,
            forall|i: int| 0 <= i < n ==> #[trigger] crc_table@[i] == crc_table_entry(i as u32),
        decreases 256 - n,
    {
        let mut c: u32 = n;
        let mut k: u32 = 0;
        while k < 8
            invariant
                k <= 8,
                c == crc_shifts(n, k as nat),
            decreases 8 - k,
        {
            if c & 1 != 0 {
                c = CRC_POLY ^ (c >> 1);
            } else {
                c = c >> 1;
            }
            k = k + 1;
        }
        crc_table.push(c);
        n = n + 1;
    }
    crc_table
}

/// Feeds the first `len` bytes of `buf` into the CRC register `crc`.
pub fn update_crc(crc: u32, buf: &[u8], len: usize) -> (r: u32)
    requires
        len <= buf@.len(),
    ensures
        r == crc_update_spec(crc, buf@.subrange(0, len as int)),
{
    let table = make_crc_table();
    let mut c: u32 = crc;
    let mut n: usize = 0;
    while n < len
        invariant
            n <= len <= buf@.len(),
            table@.len() == 256,
            forall|i: int| 0 <= i < 256 ==> #[trigger] table@[i] == crc_table_entry(i as u32),
            c == crc_update_spec(crc, buf@.subrange(0, n as int)),
        decreases len - n,
    {
        let b: u32 = buf[n] as u32;
        let idx: u32 = (c ^ b) & 0xff;
        assert(idx < 256) by (bit_vector)
            requires
                idx == (c ^ b) & 0xff,
        ;
        c = table[idx as usize] ^ (c >> 8);
        assert(buf@.subrange(0, n + 1).drop_last() =~= buf@.subrange(0, n as int));
        n = n + 1;
    }
    c
}

/// The CRC-32 checksum of the first `len` bytes of `buf`.
pub fn crc(buf: &[u8], len: usize) -> (r: u32)
    requires
        len <= buf@.len(),
    ensures
        r == crc_spec(buf@.subrange(0, len as int)),
{
    update_crc(0xffffffff, buf, len) ^ 0xffffffff
}

} // verus!
