//! The `gzip` codec, backed by the flate2 library.

use vstd::prelude::*;

use crate::Quality;
use crate::error::Error;
use crate::error::Phase;
use crate::error::is_codec_failure;
use crate::utilities::res_view;

verus! {

/// The compression level that a quality selects: levels one to nine as
/// given, nine at maximum effort, and the codec's customary six by default.
pub open spec fn spec_level(q: Quality) -> u32 {
    match q {
        Quality::Default => 6,
        Quality::Level1 => 1,
        Quality::Level2 => 2,
        Quality::Level3 => 3,
        Quality::Level4 => 4,
        Quality::Level5 => 5,
        Quality::Level6 => 6,
        Quality::Level7 => 7,
        Quality::Level8 => 8,
        Quality::Level9 => 9,
        Quality::Maximum => 9,
    }
}

fn quality_to_level(q: Quality) -> (l: u32)
    ensures
        l == spec_level(q),
        1 <= l <= 9,
{
    match q {
        Quality::Default => 6,
        Quality::Level1 => 1,
        Quality::Level2 => 2,
        Quality::Level3 => 3,
        Quality::Level4 => 4,
        Quality::Level5 => 5,
        Quality::Level6 => 6,
        Quality::Level7 => 7,
        Quality::Level8 => 8,
        Quality::Level9 => 9,
        Quality::Maximum => 9,
    }
}

/// The gzip stream of a byte string at a compression level.
pub uninterp spec fn gzip_of(data: Seq<u8>, level: int) -> Seq<u8>;

/// Relies on flate2::read::GzEncoder: the stream it yields depends only on
/// the input bytes and the level (flate2 pins the header's timestamp and
/// operating-system fields to keep its streams reproducible), and reading
/// it from a slice into memory cannot fail.
#[verifier::external_body]
fn compress(data: &[u8], level: u32) -> (r: Vec<u8>)
    requires
        level <= 9,
    ensures
        r@ == gzip_of(data@, level as int),
{
    let mut buf = Vec::new();
    let mut enc = flate2::read::GzEncoder::new(data, flate2::Compression::new(level));
    std::io::Read::read_to_end(&mut enc, &mut buf)
        .expect("compressing from a slice into memory does not fail");
    buf
}

/// Relies on flate2::write::GzDecoder: a stream that GzEncoder produced, at
/// any level, decompresses to exactly the bytes that were compressed, and
/// `finish` reports anything it cannot decode as an error.
#[verifier::external_body]
fn decompress(data: &[u8]) -> (r: Result<Vec<u8>, String>)
    ensures
        r is Err ==> forall|x: Seq<u8>, l: int| !(0 <= l <= 9 && data@ == #[trigger] gzip_of(x, l)),
        r matches Ok(v) ==> forall|x: Seq<u8>, l: int|
            0 <= l <= 9 && data@ == #[trigger] gzip_of(x, l) ==> v@ == x,
{
    let mut dec = flate2::write::GzDecoder::new(Vec::new());
    match std::io::Write::write_all(&mut dec, data).and_then(|_| dec.finish()) {
        Ok(v) => Ok(v),
        Err(e) => Err(format!("{:?}", e)),
    }
}

/// What encoding returns: the gzip stream of the payload at the level the
/// quality selects, always; in-memory compression has no failure case.
pub open spec fn encode_post(data: Seq<u8>, q: Quality, r: Result<Seq<u8>, Error>) -> bool {
    r matches Ok(v) && v == gzip_of(data, spec_level(q) as int)
}

/// What decoding returns: any stream the encoder produced decodes back to
/// the bytes that were encoded, and every failure is a decode-phase codec
/// failure.
pub open spec fn decode_post(data: Seq<u8>, r: Result<Seq<u8>, Error>) -> bool {
    &&& (forall|x: Seq<u8>, l: int|
        0 <= l <= 9 && data == #[trigger] gzip_of(x, l) ==> (r matches Ok(v) && v == x))
    &&& (r matches Err(e) ==> is_codec_failure(e, "gzip"@, Phase::Decode))
}

/// Compress the payload as a gzip stream at the quality-selected level.
pub fn encode(data: &[u8], quality: Quality) -> (r: Result<Vec<u8>, Error>)
    ensures
        encode_post(data@, quality, res_view(r)),
{
    let level = quality_to_level(quality);
    Ok(compress(data, level))
}

/// Decompress a gzip stream, failing on anything malformed.
pub fn decode(data: &[u8]) -> (r: Result<Vec<u8>, Error>)
    ensures
        decode_post(data@, res_view(r)),
{
    match decompress(data) {
        Ok(v) => Ok(v),
        Err(detail) => Err(
            Error::CodecFailure { codec: "gzip".to_owned(), phase: Phase::Decode, detail },
        ),
    }
}

} // verus!
