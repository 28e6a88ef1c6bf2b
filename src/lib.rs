//! Assembles PNG byte streams: CRC-32 and Adler-32 checksums, the zlib
//! envelope around DEFLATE data, chunk framing and the stream builder.
use vstd::prelude::*;

pub mod adler;
pub mod bytes;
pub mod crc;
pub mod error;
pub mod png;
pub mod zlib;

use crate::adler::adler32_spec;
use crate::crc::crc_spec;

verus! {

/// Both checksums are functions of their input alone: equal inputs give
/// equal CRC-32 and equal Adler-32 values, however often they are computed.
pub proof fn lemma_checksums_deterministic(a: Seq<u8>, b: Seq<u8>)
    requires
        a == b,
    ensures
        crc_spec(a) == crc_spec(b),
        adler32_spec(a) == adler32_spec(b),
{
}

} // verus!
