//! Decompression of the downloaded archive.
//!
//! The downloaded bytes are a gzip-compressed tar container.  Decoding gzip
//! is delegated to libflate; what that decoding returns is named by the
//! uninterpreted function [`gunzip`], and every contract above it speaks of
//! that name.

use crate::errors::InstallError;
use vstd::prelude::*;

verus! {

/// What gzip decoding yields for a byte sequence: the decompressed payload,
/// or nothing when the bytes are not a complete, well-formed gzip stream.
/// The outcome depends on the input bytes alone.
pub uninterp spec fn gunzip(bytes: Seq<u8>) -> Option<Seq<u8>>;

/// Relies on libflate's `gzip::Decoder`: constructing it parses the gzip
/// header, and reading it to the end yields the whole decompressed payload;
/// either step fails exactly when the input is not a complete, well-formed
/// gzip stream (bad header, bad deflate data, truncation, or a checksum
/// mismatch).  The outcome is computed from the input bytes alone.
#[verifier::external_body]
fn gzip_decode(bytes: &Vec<u8>) -> (decoded: Option<Vec<u8>>)
    ensures
        decoded is Some <==> gunzip(bytes@) is Some,
        decoded is Some ==> decoded.unwrap()@ == gunzip(bytes@).unwrap(),
{
    let mut decoder = match libflate::gzip::Decoder::new(bytes.as_slice()) {
        Ok(decoder) => decoder,
        Err(_) => return None,
    };
    let mut payload = Vec::new();
    match std::io::Read::read_to_end(&mut decoder, &mut payload) {
        Ok(_) => Some(payload),
        Err(_) => None,
    }
}

/// Decompresses the downloaded archive bytes.  Succeeds with the gzip
/// payload exactly when the bytes are a well-formed gzip stream, and fails
/// with `DecompressionFailed` otherwise.
pub fn decompress(bytes: &Vec<u8>) -> (result: Result<Vec<u8>, InstallError>)
    ensures
        result is Ok <==> gunzip(bytes@) is Some,
        result is Ok ==> result.unwrap()@ == gunzip(bytes@).unwrap(),
        result is Err ==> result.unwrap_err() == InstallError::DecompressionFailed,
{
    match gzip_decode(bytes) {
        Some(payload) => Ok(payload),
        None => Err(InstallError::DecompressionFailed),
    }
}

} // verus!
