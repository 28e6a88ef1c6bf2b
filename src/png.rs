//! Chunk framing and the PNG stream builder.
use vstd::prelude::*;

use crate::bytes::{be32, be32_value, bytes, extend_bytes, lemma_be32_round_trip};
use crate::crc::{crc, crc_spec};
use crate::error::PngError;
use crate::zlib::{deflate_of, lemma_zlib_header, wrap_deflate, zlib_stream};

verus! {

/// A chunk to be written, with what its payload is made from.
pub enum ChunkType {
    /// The image header.
    Ihdr {
        width: u32,
        height: u32,
        bit_depth: u8,
        color_type: u8,
        compression_method: u8,
        filter_method: u8,
        interlace_method: u8,
    },
    /// Image data: the raw scanlines, each led by its filter byte. They are
    /// compressed into a zlib stream when the chunk is written.
    Idat { data: Vec<u8> },
    /// The end of the image.
    Iend,
}

/// The eight bytes that open every PNG stream.
pub open spec fn png_signature() -> Seq<u8> {
    seq![137u8, 80u8, 78u8, 71u8, 13u8, 10u8, 26u8, 10u8]
}

/// The four-byte type tag of a chunk.
pub open spec fn chunk_tag(c: ChunkType) -> Seq<u8> {
    match c {
        ChunkType::Ihdr { .. } => seq![73u8, 72u8, 68u8, 82u8],
        ChunkType::Iend => seq![73u8, 69u8, 78u8, 68u8],
        ChunkType::Idat { .. } => seq![73u8, 68u8, 65u8, 84u8],
    }
}

/// The thirteen-byte payload of an image header.
pub open spec fn ihdr_payload(
    width: u32,
    height: u32,
    bit_depth: u8,
    color_type: u8,
    compression_method: u8,
    filter_method: u8,
    interlace_method: u8,
) -> Seq<u8> {
    be32(width) + be32(height) + seq![
        bit_depth,
        color_type,
        compression_method,
        filter_method,
        interlace_method,
    ]
}

/// The payload of a chunk; for image data, the zlib stream of its bytes,
/// or `None` where the compressor fails on them.
pub open spec fn chunk_payload(c: ChunkType) -> Option<Seq<u8>> {
    match c {
        ChunkType::Ihdr {
            width,
            height,
            bit_depth,
            color_type,
            compression_method,
            filter_method,
            interlace_method,
        } => Some(
            ihdr_payload(
                width,
                height,
                bit_depth,
                color_type,
                compression_method,
                filter_method,
                interlace_method,
            ),
        ),
        ChunkType::Idat { data } => match deflate_of(data@) {
            Some(compressed) => Some(zlib_stream(data@, compressed)),
            None => None,
        },
        ChunkType::Iend => Some(Seq::empty()),
    }
}

/// A framed chunk: payload length, type tag, payload, and the CRC-32 of the
/// tag and payload, integers big-endian.
pub open spec fn frame_spec(tag: Seq<u8>, payload: Seq<u8>) -> Seq<u8> {
    be32(payload.len() as u32) + tag + payload + be32(crc_spec(tag + payload))
}

impl ChunkType {
    /// The type tag of this chunk.
    pub fn header(&self) -> (r: Vec<u8>)
        ensures
            r@ == chunk_tag(*self),
    {
        let r = match self {
            ChunkType::Ihdr { .. } => vec![73u8, 72, 68, 82],
            ChunkType::Iend => vec![73u8, 69, 78, 68],
            ChunkType::Idat { .. } => vec![73u8, 68, 65, 84],
        };
        assert(r@ =~= chunk_tag(*self));
        r
    }

    /// The payload of this chunk. Only image data can fail, exactly where
    /// the compressor does.
    pub fn data(self) -> (r: Result<Vec<u8>, PngError>)
        ensures
            match chunk_payload(self) {
                Some(p) => r matches Ok(v) && v@ == p,
                None => r matches Err(e) && e is Compression,
            },
            !(self is Idat) ==> r is Ok,
            self is Idat ==> (r matches Ok(v) ==> v@.len() >= 6 && ((v@[0] as int) * 256
                + v@[1] as int) % 31 == 0 && v@[1] / 64 == 3),
    {
        match self {
            ChunkType::Ihdr {
                width,
                height,
                bit_depth,
                color_type,
                compression_method,
                filter_method,
                interlace_method,
            } => {
                let mut ret: Vec<u8> = Vec::new();
                extend_bytes(&mut ret, &bytes(width));
                extend_bytes(&mut ret, &bytes(height));
                ret.push(bit_depth);
                ret.push(color_type);
                ret.push(compression_method);
                ret.push(filter_method);
                ret.push(interlace_method);
                assert(ret@ =~= chunk_payload(self)->Some_0);
                Ok(ret)
            },
            ChunkType::Idat { data } => {
                proof {
                    if let Some(c) = deflate_of(data@) {
                        lemma_zlib_header(data@, c);
                    }
                }
                wrap_deflate(data.as_slice())
            },
            ChunkType::Iend => Ok(Vec::new()),
        }
    }
}

/// Frames `payload` as a chunk of type `tag`.
pub fn frame(tag: &[u8], payload: &[u8]) -> (r: Vec<u8>)
    requires
        tag@.len() == 4,
        payload@.len() <= u32::MAX,
    ensures
        r@ == frame_spec(tag@, payload@),
{
    let mut body: Vec<u8> = Vec::new();
    extend_bytes(&mut body, tag);
    extend_bytes(&mut body, payload);
    let crc = crc(body.as_slice(), body.len());
    assert(body@.subrange(0, body@.len() as int) =~= body@);
    let mut buf: Vec<u8> = Vec::new();
    extend_bytes(&mut buf, &bytes(payload.len() as u32));
    extend_bytes(&mut buf, body.as_slice());
    extend_bytes(&mut buf, &bytes(crc));
    assert(buf@ =~= frame_spec(tag@, payload@));
    buf
}

/// A frame gives back what it was made from: its length field reads as the
/// payload's length, the tag and payload follow it unchanged, and its last
/// four bytes read as the CRC-32 of the tag and payload.
pub proof fn lemma_frame_round_trip(tag: Seq<u8>, payload: Seq<u8>)
    requires
        tag.len() == 4,
        payload.len() <= u32::MAX,
    ensures
        ({
            let f = frame_spec(tag, payload);
            let n = payload.len() as int;
            &&& f.len() == n + 12
            &&& be32_value(f.subrange(0, 4)) == n
            &&& f.subrange(4, 8) == tag
            &&& f.subrange(8, 8 + n) == payload
            &&& be32_value(f.subrange(8 + n, 12 + n)) == crc_spec(f.subrange(4, 8 + n))
            &&& be32_value(f.subrange(8 + n, 12 + n)) == crc_spec(tag + payload)
        }),
{
    let f = frame_spec(tag, payload);
    let n = payload.len() as int;
    lemma_be32_round_trip(payload.len() as u32);
    lemma_be32_round_trip(crc_spec(tag + payload));
    assert(f.subrange(0, 4) =~= be32(payload.len() as u32));
    assert(f.subrange(4, 8) =~= tag);
    assert(f.subrange(8, 8 + n) =~= payload);
    assert(f.subrange(4, 8 + n) =~= tag + payload);
    assert(f.subrange(8 + n, 12 + n) =~= be32(crc_spec(tag + payload)));
}

/// A PNG byte stream under construction.
pub struct Png {
    bytes: Vec<u8>,
}

impl View for Png {
    type V = Seq<u8>;

    closed spec fn view(&self) -> Seq<u8> {
        self.bytes@
    }
}

impl Png {
    /// The stream opens with the signature.
    pub open spec fn wf(&self) -> bool {
        self@.len() >= 8 && self@.subrange(0, 8) == png_signature()
    }

    /// A stream that holds the signature alone.
    pub fn new() -> (r: Self)
        ensures
            r@ == png_signature(),
            r.wf(),
    {
        let r = Png { bytes: vec![137u8, 80, 78, 71, 13, 10, 26, 10] };
        assert(r@ =~= png_signature());
        assert(r@.subrange(0, 8) =~= r@);
        r
    }

    /// Frames `chunk_type` and appends it. On failure the stream is left
    /// as it was.
    pub fn write_chunk(&mut self, chunk_type: ChunkType) -> (r: Result<(), PngError>)
        ensures
            match chunk_payload(chunk_type) {
                Some(p) => if p.len() <= u32::MAX {
                    r is Ok && final(self)@ == old(self)@ + frame_spec(chunk_tag(chunk_type), p)
                } else {
                    r matches Err(e) && e is ChunkTooLarge
                },
                None => r matches Err(e) && e is Compression,
            },
            r is Err ==> final(self)@ == old(self)@,
            !(chunk_type is Idat) ==> r is Ok,
            old(self).wf() ==> final(self).wf(),
    {
        let header = chunk_type.header();
        let data = match chunk_type.data() {
            Ok(d) => d,
            Err(e) => return Err(e),
        };
        if data.len() as u64 > 0xffff_ffff {
            return Err(PngError::ChunkTooLarge);
        }
        let buf = frame(header.as_slice(), data.as_slice());
        extend_bytes(&mut self.bytes, buf.as_slice());
        proof {
            if old(self).wf() {
                assert(self@.subrange(0, 8) =~= old(self)@.subrange(0, 8));
            }
        }
        Ok(())
    }

    /// The bytes written so far.
    pub fn as_bytes(&self) -> (r: &[u8])
        ensures
            r@ == self@,
    {
        self.bytes.as_slice()
    }

    /// The finished stream.
    pub fn into_bytes(self) -> (r: Vec<u8>)
        ensures
            r@ == self@,
    {
        self.bytes
    }
}

} // verus!
