//! Decompression stage: Zstandard, on in-memory bytes.

use vstd::prelude::*;

verus! {

/// The bytes that a Zstandard frame decompresses to.
///
/// Decompression is a fixed function of the compressed bytes alone;
/// nothing further is assumed about its value.
pub uninterp spec fn zstd_plain_of(bytes: Seq<u8>) -> Seq<u8>;

/// Whether a byte sequence is a decodable Zstandard frame.
///
/// Whether decoding succeeds is a fixed function of the input bytes
/// alone; nothing further is assumed about which inputs decode.
pub uninterp spec fn zstd_ok_of(bytes: Seq<u8>) -> bool;

/// Relies on zstd's `stream::decode_all`: whether the call succeeds
/// depends on the input bytes alone — it does, exactly when they are a
/// decodable frame — and on success the result is the decompressed
/// content of the input, a function of the input bytes alone; on
/// failure the error is returned, described.
#[verifier::external_body]
pub(crate) fn decompress_zstd(bytes: &Vec<u8>) -> (r: Result<Vec<u8>, String>)
    ensures
        (r is Ok) == zstd_ok_of(bytes@),
        r matches Ok(v) ==> v@ == zstd_plain_of(bytes@),
{
    match zstd::stream::decode_all(bytes.as_slice()) {
        Ok(v) => Ok(v),
        Err(e) => Err(format!("{}", e)),
    }
}

} // verus!
