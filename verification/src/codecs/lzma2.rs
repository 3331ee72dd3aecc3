//! The `lzma2` codec, backed by the lzma-rs library.

use vstd::prelude::*;

use crate::Quality;
use crate::error::Error;
use crate::error::Phase;
use crate::error::is_codec_failure;
use crate::utilities::res_view;

verus! {

/// The LZMA2 stream of a byte string.
pub uninterp spec fn lzma2_of(data: Seq<u8>) -> Seq<u8>;

/// Relies on lzma_rs::lzma2_compress with its default options: the stream it
/// writes depends on the input bytes alone, and writing it from a slice
/// into memory cannot fail.
#[verifier::external_body]
fn compress(data: &[u8]) -> (r: Vec<u8>)
    ensures
        r@ == lzma2_of(data@),
{
    let mut buf = Vec::new();
    lzma_rs::lzma2_compress(&mut std::io::Cursor::new(data), &mut buf)
        .expect("compressing from a slice into memory does not fail");
    buf
}

/// Relies on lzma_rs::lzma2_decompress: a stream that lzma2_compress produced
/// decompresses to exactly the bytes that were compressed, and anything it
/// cannot decode is reported as an error.
#[verifier::external_body]
fn decompress(data: &[u8]) -> (r: Result<Vec<u8>, String>)
    ensures
        r is Err ==> forall|x: Seq<u8>| data@ != #[trigger] lzma2_of(x),
        r matches Ok(v) ==> forall|x: Seq<u8>| data@ == #[trigger] lzma2_of(x) ==> v@ == x,
{
    let mut buf = Vec::new();
    match lzma_rs::lzma2_decompress(&mut std::io::Cursor::new(data), &mut buf) {
        Ok(()) => Ok(buf),
        Err(e) => Err(format!("{:?}", e)),
    }
}

/// What encoding returns: the LZMA2 stream of the payload, always;
/// in-memory compression has no failure case.
pub open spec fn encode_post(data: Seq<u8>, r: Result<Seq<u8>, Error>) -> bool {
    r matches Ok(v) && v == lzma2_of(data)
}

/// What decoding returns: any stream the encoder produced decodes back to
/// the bytes that were encoded, and every failure is a decode-phase codec
/// failure.
pub open spec fn decode_post(data: Seq<u8>, r: Result<Seq<u8>, Error>) -> bool {
    &&& (forall|x: Seq<u8>| data == #[trigger] lzma2_of(x) ==> (r matches Ok(v) && v == x))
    &&& (r matches Err(e) ==> is_codec_failure(e, "lzma2"@, Phase::Decode))
}

/// Compress the payload as an LZMA2 stream.
///
/// The backing library exposes no effort parameter, so the quality level is
/// accepted and ignored.
pub fn encode(data: &[u8], _quality: Quality) -> (r: Result<Vec<u8>, Error>)
    ensures
        encode_post(data@, res_view(r)),
{
    Ok(compress(data))
}

/// Decompress an LZMA2 stream, failing on anything malformed.
pub fn decode(data: &[u8]) -> (r: Result<Vec<u8>, Error>)
    ensures
        decode_post(data@, res_view(r)),
{
    match decompress(data) {
        Ok(v) => Ok(v),
        Err(detail) => Err(
            Error::CodecFailure { codec: "lzma2".to_owned(), phase: Phase::Decode, detail },
        ),
    }
}

} // verus!
