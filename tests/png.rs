use std::io::Cursor;

use tinypng::bytes::bytes;
use tinypng::png::{frame, ChunkType, Png};

fn ihdr(width: u32, height: u32, bit_depth: u8, color_type: u8) -> ChunkType {
    ChunkType::Ihdr {
        width,
        height,
        bit_depth,
        color_type,
        compression_method: 0,
        filter_method: 0,
        interlace_method: 0,
    }
}

fn be32_at(b: &[u8], at: usize) -> u32 {
    u32::from_be_bytes([b[at], b[at + 1], b[at + 2], b[at + 3]])
}

/// Splits a stream after its signature into (tag, payload, stored crc).
fn chunks(stream: &[u8]) -> Vec<(Vec<u8>, Vec<u8>, u32)> {
    let mut out = Vec::new();
    let mut at = 8;
    while at < stream.len() {
        let len = be32_at(stream, at) as usize;
        let tag = stream[at + 4..at + 8].to_vec();
        let payload = stream[at + 8..at + 8 + len].to_vec();
        let crc = be32_at(stream, at + 8 + len);
        out.push((tag, payload, crc));
        at += 12 + len;
    }
    out
}

fn third_party_crc(tag: &[u8], payload: &[u8]) -> u32 {
    let mut h = flate2::Crc::new();
    h.update(tag);
    h.update(payload);
    h.sum()
}

#[test]
fn big_endian_bytes() {
    assert_eq!(bytes(0x0102_0304), [1, 2, 3, 4]);
    assert_eq!(bytes(0), [0, 0, 0, 0]);
    assert_eq!(bytes(u32::MAX), [0xff; 4]);
}

#[test]
fn chunk_tags() {
    assert_eq!(ihdr(1, 1, 8, 0).header(), b"IHDR".to_vec());
    assert_eq!(ChunkType::Idat { data: vec![] }.header(), b"IDAT".to_vec());
    assert_eq!(ChunkType::Iend.header(), b"IEND".to_vec());
}

#[test]
fn ihdr_payload_layout() {
    let d = match ihdr(375, 360, 8, 6).data() {
        Ok(d) => d,
        Err(_) => panic!("header payload failed"),
    };
    assert_eq!(d, vec![0, 0, 1, 0x77, 0, 0, 1, 0x68, 8, 6, 0, 0, 0]);
}

#[test]
fn iend_payload_is_empty() {
    match ChunkType::Iend.data() {
        Ok(d) => assert!(d.is_empty()),
        Err(_) => panic!("end payload failed"),
    }
}

#[test]
fn frame_of_header_chunk() {
    let f = frame(b"IHDR", &[0, 0, 1, 0x77, 0, 0, 1, 0x68, 8, 6, 0, 0, 0]);
    assert_eq!(f.len(), 25);
    assert_eq!(&f[..4], &[0, 0, 0, 13]);
    assert_eq!(be32_at(&f, 21), 0xac40bbb0);
}

#[test]
fn frame_round_trip() {
    let payload: Vec<u8> = (0..300u32).map(|i| (i * 13) as u8).collect();
    let f = frame(b"abcd", &payload);
    assert_eq!(be32_at(&f, 0) as usize, payload.len());
    assert_eq!(&f[4..8], b"abcd");
    assert_eq!(&f[8..8 + payload.len()], &payload[..]);
    assert_eq!(be32_at(&f, 8 + payload.len()), third_party_crc(b"abcd", &payload));
}

#[test]
fn new_stream_holds_the_signature() {
    let png = Png::new();
    assert_eq!(png.as_bytes(), &[137, 80, 78, 71, 13, 10, 26, 10]);
}

#[test]
fn iend_chunk_bytes() {
    let mut png = Png::new();
    assert!(png.write_chunk(ChunkType::Iend).is_ok());
    assert_eq!(
        &png.into_bytes()[8..],
        &[0, 0, 0, 0, 0x49, 0x45, 0x4e, 0x44, 0xae, 0x42, 0x60, 0x82]
    );
}

#[test]
fn empty_idat_chunk_is_a_valid_zlib_stream() {
    let mut png = Png::new();
    assert!(png.write_chunk(ChunkType::Idat { data: vec![] }).is_ok());
    let stream = png.into_bytes();
    let cs = chunks(&stream);
    assert_eq!(cs.len(), 1);
    let (tag, payload, crc) = &cs[0];
    assert_eq!(tag, b"IDAT");
    assert_eq!(*crc, third_party_crc(tag, payload));
    assert_eq!(&payload[..2], &[0x68, 0xde]);
    assert_eq!(&payload[payload.len() - 4..], &[0, 0, 0, 1]);
    let mut out = Vec::new();
    std::io::Read::read_to_end(&mut flate2::read::ZlibDecoder::new(&payload[..]), &mut out)
        .unwrap();
    assert!(out.is_empty());
}

fn encode(header: ChunkType, data: Vec<u8>) -> Vec<u8> {
    let mut png = Png::new();
    assert!(png.write_chunk(header).is_ok());
    assert!(png.write_chunk(ChunkType::Idat { data }).is_ok());
    assert!(png.write_chunk(ChunkType::Iend).is_ok());
    png.into_bytes()
}

#[test]
fn stream_of_400_by_308_bytes_of_128() {
    let stream = encode(ihdr(400, 308, 1, 0), vec![128u8; 400 * 308]);
    let cs = chunks(&stream);
    let tags: Vec<&[u8]> = cs.iter().map(|c| &c.0[..]).collect();
    assert_eq!(tags, vec![&b"IHDR"[..], &b"IDAT"[..], &b"IEND"[..]]);
    for (tag, payload, crc) in &cs {
        assert_eq!(*crc, third_party_crc(tag, payload));
    }
    let reader = png::Decoder::new(Cursor::new(stream)).read_info().unwrap();
    let info = reader.info();
    assert_eq!(info.width, 400);
    assert_eq!(info.height, 308);
    assert_eq!(info.bit_depth, png::BitDepth::One);
    assert_eq!(info.color_type, png::ColorType::Grayscale);
}

#[test]
fn decoder_reads_the_whole_image() {
    let (w, h) = (400u32, 308u32);
    let mut data = Vec::new();
    for _ in 0..h {
        data.push(0);
        data.extend(std::iter::repeat(128u8).take((w / 8) as usize));
    }
    let stream = encode(ihdr(w, h, 1, 0), data);
    let mut reader = png::Decoder::new(Cursor::new(stream)).read_info().unwrap();
    let mut buf = vec![0; reader.output_buffer_size()];
    let out = reader.next_frame(&mut buf).unwrap();
    assert_eq!((out.width, out.height), (w, h));
    assert_eq!(out.bit_depth, png::BitDepth::One);
    assert_eq!(out.color_type, png::ColorType::Grayscale);
    assert!(buf[..out.buffer_size()].iter().all(|&b| b == 128));
    reader.finish().unwrap();
}

#[test]
fn stream_layout_of_400_by_308_bytes_of_128() {
    let b = encode(ihdr(400, 308, 1, 0), vec![128u8; 400 * 308]);
    assert_eq!(&b[..8], &[137, 80, 78, 71, 13, 10, 26, 10]);
    assert_eq!(&b[8..16], &[0, 0, 0, 13, 0x49, 0x48, 0x44, 0x52]);
    let l = be32_at(&b, 33) as usize;
    assert_eq!(b.len(), l + 57);
    assert_eq!(&b[37..41], b"IDAT");
    assert_eq!((b[41] as u32 * 256 + b[42] as u32) % 31, 0);
    assert_eq!(&b[37 + l..41 + l], &[0x99, 0x11, 0xae, 0x11]);
    assert_eq!(
        &b[45 + l..57 + l],
        &[0, 0, 0, 0, 0x49, 0x45, 0x4e, 0x44, 0xae, 0x42, 0x60, 0x82]
    );
}
