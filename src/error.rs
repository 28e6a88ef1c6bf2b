//! Errors of the stream builder.
use vstd::prelude::*;

verus! {

/// std's I/O error, as the DEFLATE encoder reports it; carried through
/// unopened.
#[verifier::external_type_specification]
#[verifier::external_body]
pub struct ExIoError(std::io::Error);

/// Why a chunk could not be written.
#[derive(Debug)]
pub enum PngError {
    /// The DEFLATE compressor failed; its error is passed on unchanged.
    Compression(std::io::Error),
    /// The payload is longer than a chunk's 32-bit length field can say.
    ChunkTooLarge,
}

} // verus!
