//! The zlib envelope around the image data: a two-byte header, the DEFLATE
//! stream, and the Adler-32 of the uncompressed bytes.
use vstd::prelude::*;

use crate::adler::{adler32, adler32_spec};
use crate::bytes::{be32, bytes, extend_bytes};
use crate::error::PngError;

verus! {

/// Compression method and info: deflate (8) in the low nibble, a window of
/// 2^(6 + 8) bytes in the high one.
pub const ZLIB_CMF: u8 = 0x68;

/// Flags before the check bits: compression level 3 ("maximum") in the top
/// two bits, no preset dictionary.
pub const ZLIB_FLG_BASE: u8 = 0xc0;

/// The check bits that make `cmf * 256 + flg` a multiple of 31.
pub open spec fn fcheck_spec(cmf: u8, flg_base: u8) -> int {
    31 - ((cmf as int) * 256 + flg_base as int) % 31
}

/// The flag byte of the envelope this library writes.
pub open spec fn zlib_flg() -> u8 {
    (ZLIB_FLG_BASE + fcheck_spec(ZLIB_CMF, ZLIB_FLG_BASE)) as u8
}

/// The zlib stream of `raw`, given its DEFLATE stream `compressed`.
pub open spec fn zlib_stream(raw: Seq<u8>, compressed: Seq<u8>) -> Seq<u8> {
    seq![ZLIB_CMF, zlib_flg()] + compressed + be32(adler32_spec(raw) as u32)
}

/// What the DEFLATE compressor makes of `data`: the compressed stream, or
/// `None` where it fails. Both depend on the bytes alone.
pub uninterp spec fn deflate_of(data: Seq<u8>) -> Option<Seq<u8>>;

/// Relies on flate2's `DeflateEncoder` over a `Vec<u8>` at the best level
/// (`new`, `write_all`, `finish`): the raw DEFLATE stream of `data`, or the
/// error that the encoder reports.
#[verifier::external_body]
fn deflate(data: &[u8]) -> (r: Result<Vec<u8>, std::io::Error>)
    ensures
        match r {
            Ok(c) => deflate_of(data@) == Some(c@),
            Err(_) => deflate_of(data@) is None,
        },
{
    let mut e = flate2::write::DeflateEncoder::new(Vec::new(), flate2::Compression::best());
    std::io::Write::write_all(&mut e, data)?;
    e.finish()
}

/// For any method byte, and any flag base whose low five bits are clear,
/// the check bits lie in 1..=31, setting them into the base adds them, and
/// the two header bytes then read as a multiple of 31.
pub proof fn lemma_fcheck_multiple_of_31(cmf: u8, flg_base: u8)
    requires
        flg_base % 32 == 0,
    ensures
        1 <= fcheck_spec(cmf, flg_base) <= 31,
        flg_base | (fcheck_spec(cmf, flg_base) as u8) == flg_base + fcheck_spec(cmf, flg_base),
        ((cmf as int) * 256 + flg_base + fcheck_spec(cmf, flg_base)) % 31 == 0,
        (flg_base + fcheck_spec(cmf, flg_base)) / 32 == flg_base / 32,
{
    let f: u8 = fcheck_spec(cmf, flg_base) as u8;
    assert(flg_base | f == flg_base + f) by (bit_vector)
        requires
            flg_base % 32 == 0,
            1 <= f <= 31,
    ;
}

/// The flag byte for `cmf` and `flg_base`: `flg_base` with the check bits
/// set so that the two header bytes, read as a big-endian number, are a
/// multiple of 31.
pub fn fcheck_flags(cmf: u8, flg_base: u8) -> (r: u8)
    requires
        flg_base % 32 == 0,
    ensures
        r == flg_base + fcheck_spec(cmf, flg_base),
        ((cmf as int) * 256 + r as int) % 31 == 0,
        r / 32 == flg_base / 32,
{
    proof {
        lemma_fcheck_multiple_of_31(cmf, flg_base);
    }
    let v: u32 = cmf as u32 * 256 + flg_base as u32;
    let fcheck: u8 = (31 - v % 31) as u8;
    flg_base | fcheck
}

/// The zlib stream of `raw`, given its DEFLATE stream `compressed`.
pub fn zlib_envelope(raw: &[u8], compressed: &[u8]) -> (r: Vec<u8>)
    ensures
        r@ == zlib_stream(raw@, compressed@),
{
    let flg = fcheck_flags(ZLIB_CMF, ZLIB_FLG_BASE);
    let mut buf: Vec<u8> = Vec::new();
    buf.push(ZLIB_CMF);
    buf.push(flg);
    extend_bytes(&mut buf, compressed);
    let adler = bytes(adler32(raw));
    extend_bytes(&mut buf, &adler);
    assert(buf@ =~= zlib_stream(raw@, compressed@));
    buf
}

/// The two header bytes of the envelope read as a multiple of 31, and its
/// flags advertise level 3, the level the body is compressed at.
pub proof fn lemma_zlib_header(raw: Seq<u8>, compressed: Seq<u8>)
    ensures
        ({
            let z = zlib_stream(raw, compressed);
            &&& z.len() == compressed.len() + 6
            &&& ((z[0] as int) * 256 + z[1] as int) % 31 == 0
            &&& z[1] / 64 == 3
        }),
{
    lemma_fcheck_multiple_of_31(ZLIB_CMF, ZLIB_FLG_BASE);
}

/// The envelope of `raw` from the compressor's result on it: the zlib
/// stream where it succeeded, its error unchanged where it failed.
pub fn wrap_compressed(raw: &[u8], compressed: Result<Vec<u8>, std::io::Error>) -> (r: Result<
    Vec<u8>,
    PngError,
>)
    ensures
        match compressed {
            Ok(c) => r matches Ok(v) && v@ == zlib_stream(raw@, c@),
            Err(e) => r matches Err(PngError::Compression(e2)) && e2 == e,
        },
{
    match compressed {
        Ok(c) => Ok(zlib_envelope(raw, c.as_slice())),
        Err(e) => Err(PngError::Compression(e)),
    }
}

/// The zlib stream of `raw`: compressed at the level its header advertises.
/// Fails exactly where the compressor does, with the compressor's error.
pub fn wrap_deflate(raw: &[u8]) -> (r: Result<Vec<u8>, PngError>)
    ensures
        match deflate_of(raw@) {
            Some(c) => r matches Ok(v) && v@ == zlib_stream(raw@, c),
            None => r matches Err(e) && e is Compression,
        },
{
    wrap_compressed(raw, deflate(raw))
}

} // verus!
