//! The `xz` codec, backed by the xz2 bindings to liblzma.

use vstd::prelude::*;

use crate::Quality;
use crate::error::Error;
use crate::error::Phase;
use crate::error::is_codec_failure;
use crate::utilities::res_view;

verus! {

/// The preset that a quality selects: presets one to nine as given, nine at
/// maximum effort, and the codec's customary six by default.
pub open spec fn spec_preset(q: Quality) -> u32 {
    match q {
        Quality::Default => 6,
        Quality::Level1 => 1,
        Quality::Level2 => 2,
        Quality::Level3 => 3,
        Quality::Level4 => 4,
        Quality::Level5 => 5,
        Quality::Level6 => 6,
        Quality::Level7 => 7,
        Quality::Level8 => 8,
        Quality::Level9 => 9,
        Quality::Maximum => 9,
    }
}

fn quality_to_preset(q: Quality) -> (l: u32)
    ensures
        l == spec_preset(q),
        1 <= l <= 9,
{
    match q {
        Quality::Default => 6,
        Quality::Level1 => 1,
        Quality::Level2 => 2,
        Quality::Level3 => 3,
        Quality::Level4 => 4,
        Quality::Level5 => 5,
        Quality::Level6 => 6,
        Quality::Level7 => 7,
        Quality::Level8 => 8,
        Quality::Level9 => 9,
        Quality::Maximum => 9,
    }
}

/// The xz stream of a byte string at a compression preset.
pub uninterp spec fn xz_of(data: Seq<u8>, preset: int) -> Seq<u8>;

/// Relies on xz2::write::XzEncoder at a fixed preset: the stream it writes
/// depends only on the input bytes and the preset, and writing it into
/// memory cannot fail.
#[verifier::external_body]
fn compress(data: &[u8], preset: u32) -> (r: Vec<u8>)
    requires
        preset <= 9,
    ensures
        r@ == xz_of(data@, preset as int),
{
    let mut enc = xz2::write::XzEncoder::new(Vec::new(), preset);
    std::io::Write::write_all(&mut enc, data)
        .expect("compressing into memory does not fail");
    enc.finish().expect("finishing an in-memory xz stream does not fail")
}

/// Relies on xz2::write::XzDecoder: a stream that XzEncoder produced, at any
/// preset, decompresses to exactly the bytes that were compressed, and
/// anything it cannot decode is reported as an error.
#[verifier::external_body]
fn decompress(data: &[u8]) -> (r: Result<Vec<u8>, String>)
    ensures
        r is Err ==> forall|x: Seq<u8>, l: int| !(0 <= l <= 9 && data@ == #[trigger] xz_of(x, l)),
        r matches Ok(v) ==> forall|x: Seq<u8>, l: int|
            0 <= l <= 9 && data@ == #[trigger] xz_of(x, l) ==> v@ == x,
{
    let mut dec = xz2::write::XzDecoder::new(Vec::new());
    match std::io::Write::write_all(&mut dec, data).and_then(|_| dec.finish()) {
        Ok(v) => Ok(v),
        Err(e) => Err(format!("{:?}", e)),
    }
}

/// What encoding returns: the xz stream of the payload at the preset the
/// quality selects, always; in-memory compression has no failure case.
pub open spec fn encode_post(data: Seq<u8>, q: Quality, r: Result<Seq<u8>, Error>) -> bool {
    r matches Ok(v) && v == xz_of(data, spec_preset(q) as int)
}

/// What decoding returns: any stream the encoder produced decodes back to
/// the bytes that were encoded, and every failure is a decode-phase codec
/// failure.
pub open spec fn decode_post(data: Seq<u8>, r: Result<Seq<u8>, Error>) -> bool {
    &&& (forall|x: Seq<u8>, l: int|
        0 <= l <= 9 && data == #[trigger] xz_of(x, l) ==> (r matches Ok(v) && v == x))
    &&& (r matches Err(e) ==> is_codec_failure(e, "xz"@, Phase::Decode))
}

/// Compress the payload as an xz stream at the quality-selected preset.
pub fn encode(data: &[u8], quality: Quality) -> (r: Result<Vec<u8>, Error>)
    ensures
        encode_post(data@, quality, res_view(r)),
{
    let preset = quality_to_preset(quality);
    Ok(compress(data, preset))
}

/// Decompress an xz stream, failing on anything malformed.
pub fn decode(data: &[u8]) -> (r: Result<Vec<u8>, Error>)
    ensures
        decode_post(data@, res_view(r)),
{
    match decompress(data) {
        Ok(v) => Ok(v),
        Err(detail) => Err(
            Error::CodecFailure { codec: "xz".to_owned(), phase: Phase::Decode, detail },
        ),
    }
}

} // verus!
