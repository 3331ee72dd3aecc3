//! The `base58` codec: bytes to base-58 text and back.
//!
//! Encoding renders the payload as base-58 text (the alphabet that leaves
//! out `0`, `I`, `O` and `l`) and returns the bytes of that text. Decoding
//! parses the payload as UTF-8 text, trims surrounding whitespace
//! characters, and decodes the base-58 alphabet back to bytes, failing with
//! a structured error on anything that is not base-58 text.

use vstd::prelude::*;
use vstd::string::*;
use vstd::utf8::*;

use crate::Quality;
use crate::error::Error;
use crate::error::Phase;
use crate::error::is_codec_failure;
use crate::utilities::is_space;
use crate::utilities::res_view;
use crate::utilities::trim_back;
use crate::utilities::trim_front;
use crate::utilities::trim_spec;
use crate::utilities::trim_text;

verus! {

/// A byte of the base-58 alphabet: the ASCII digits and letters other than
/// `0`, `I`, `O` and `l`.
pub open spec fn is_b58_byte(b: u8) -> bool {
    ||| 0x31 <= b <= 0x39
    ||| 0x41 <= b <= 0x5a && b != 0x49 && b != 0x4f
    ||| 0x61 <= b <= 0x7a && b != 0x6c
}

/// All bytes of the sequence are base-58 alphabet bytes.
pub open spec fn all_b58(s: Seq<u8>) -> bool {
    forall|i: int| 0 <= i < s.len() ==> is_b58_byte(#[trigger] s[i])
}

/// The bytes of the base-58 text of a byte string.
pub uninterp spec fn b58_of(data: Seq<u8>) -> Seq<u8>;

/// Relies on bs58::encode with its default (Bitcoin) alphabet: the text
/// depends on the input bytes alone, and every one of its bytes is an
/// alphabet character.
#[verifier::external_body]
pub(crate) fn b58_encode(data: &[u8]) -> (r: String)
    ensures
        encode_utf8(r@) == b58_of(data@),
        all_b58(encode_utf8(r@)),
{
    bs58::encode(data).into_string()
}

/// Relies on bs58::decode with its default alphabet: it fails exactly on
/// input holding a byte outside the alphabet, and it inverts bs58::encode.
#[verifier::external_body]
fn b58_decode(data: &[u8]) -> (r: Option<Vec<u8>>)
    ensures
        r matches Some(v) ==> b58_of(v@) == data@,
        r is Some <==> all_b58(data@),
        r matches Some(v) ==> forall|x: Seq<u8>| data@ == #[trigger] b58_of(x) ==> v@ == x,
{
    bs58::decode(data).into_vec().ok()
}

/// Relies on str::from_utf8, read through vstd's model of UTF-8: it succeeds
/// exactly on valid UTF-8 and returns the text with exactly the given bytes.
#[verifier::external_body]
fn utf8_text(data: &[u8]) -> (r: Option<&str>)
    ensures
        r matches Some(s) ==> s.spec_bytes() == data@,
        r is Some <==> valid_utf8(data@),
{
    std::str::from_utf8(data).ok()
}

/// Base-58 text is ASCII, hence valid UTF-8.
pub proof fn lemma_b58_valid_utf8(s: Seq<u8>)
    requires
        all_b58(s),
    ensures
        valid_utf8(s),
{
    assert(s.subrange(0, 0) =~= Seq::<u8>::empty());
    assert(partial_valid_utf8(s, 0));
    partial_valid_utf8_extend_ascii_block(s, 0, s.len() as int);
    assert(s.subrange(0, s.len() as int) =~= s);
}

proof fn lemma_ascii_decode_chars(s: Seq<u8>)
    requires
        forall|i: int| 0 <= i < s.len() ==> s[i] < 0x80,
    ensures
        valid_utf8(s),
        decode_utf8(s).len() == s.len(),
        forall|i: int| 0 <= i < s.len() ==> (#[trigger] decode_utf8(s)[i]) as u32 == s[i],
    decreases s.len(),
{
    if s.len() > 0 {
        let b = s[0];
        assert(is_leading_byte_width_1(b));
        assert(b & 0x7f == b) by (bit_vector)
            requires
                b < 0x80,
        ;
        assert(decode_first_codepoint(s) == b as u32);
        assert(valid_first_scalar(s));
        let rest = pop_first_scalar(s);
        assert(rest =~= s.drop_first());
        lemma_ascii_decode_chars(rest);
        assert(valid_utf8(s));
        let cs = decode_utf8(s);
        assert(cs =~= seq![decode_first_scalar(s) as char] + decode_utf8(rest));
        assert forall|i: int| 0 <= i < s.len() implies (#[trigger] cs[i]) as u32 == s[i] by {
            if i > 0 {
                assert(cs[i] == decode_utf8(rest)[i - 1]);
                assert(rest[i - 1] == s[i]);
            }
        }
    }
}

/// Base-58 text is valid UTF-8 whose characters carry no surrounding
/// whitespace, so decoding it to text, trimming, and re-encoding gives the
/// bytes back unchanged.
pub proof fn lemma_b58_text_untrimmed(s: Seq<u8>)
    requires
        all_b58(s),
    ensures
        valid_utf8(s),
        trimmed_of(s) == s,
{
    lemma_b58_valid_utf8(s);
    lemma_ascii_decode_chars(s);
    let cs = decode_utf8(s);
    if cs.len() > 0 {
        assert(is_b58_byte(s[0]));
        assert(cs[0] as u32 == s[0]);
        assert(!is_space(cs[0]));
        assert(is_b58_byte(s[s.len() - 1]));
        assert(cs.last() as u32 == s[s.len() - 1]);
        assert(!is_space(cs.last()));
    }
    assert(trim_front(cs) == cs);
    assert(trim_back(cs) == cs);
    decode_utf8_encode_utf8(s);
}

/// What encoding returns: the base-58 text of the payload, always.
pub open spec fn encode_post(data: Seq<u8>, r: Result<Seq<u8>, Error>) -> bool {
    &&& r matches Ok(v) && v == b58_of(data)
    &&& all_b58(b58_of(data))
}

/// The payload read as UTF-8 text, trimmed of surrounding whitespace
/// characters, and returned to bytes.
pub open spec fn trimmed_of(data: Seq<u8>) -> Seq<u8>
    recommends
        valid_utf8(data),
{
    encode_utf8(trim_spec(decode_utf8(data)))
}

/// What decoding returns, over the payload trimmed of surrounding
/// whitespace: it succeeds exactly on UTF-8 text whose trimmed bytes are all
/// alphabet bytes, the decoded bytes re-encode to that trimmed text, and any
/// text produced by the encoder decodes back to what was encoded.
pub open spec fn decode_post(data: Seq<u8>, r: Result<Seq<u8>, Error>) -> bool {
    let t = trimmed_of(data);
    &&& (r is Ok <==> valid_utf8(data) && all_b58(t))
    &&& (r matches Ok(v) ==> b58_of(v) == t)
    &&& (forall|x: Seq<u8>|
        valid_utf8(data) && t == #[trigger] b58_of(x) && all_b58(t) ==> (r matches Ok(v) && v
            == x))
    &&& (r matches Err(e) ==> is_codec_failure(e, "base58"@, Phase::Decode))
}

/// Render the payload as base-58 text, returned as the bytes of that text.
///
/// The quality level is accepted for interface uniformity; the text codec
/// has no notion of effort, so it is ignored.
pub fn encode(data: &[u8], _quality: Quality) -> (r: Result<Vec<u8>, Error>)
    ensures
        encode_post(data@, res_view(r)),
{
    let s = b58_encode(data);
    Ok(s.as_str().as_bytes_vec())
}

/// Parse the payload as UTF-8 text, trim surrounding whitespace characters,
/// and decode the base-58 alphabet back to bytes.
pub fn decode(data: &[u8]) -> (r: Result<Vec<u8>, Error>)
    ensures
        decode_post(data@, res_view(r)),
{
    match utf8_text(data) {
        None => Err(
            Error::CodecFailure {
                codec: "base58".to_owned(),
                phase: Phase::Decode,
                detail: "input is not valid UTF-8 text".to_owned(),
            },
        ),
        Some(s) => {
            proof {
                encode_utf8_decode_utf8(s@);
            }
            let t = trim_text(s);
            match b58_decode(t.as_bytes()) {
                Some(v) => Ok(v),
                None => Err(
                    Error::CodecFailure {
                        codec: "base58".to_owned(),
                        phase: Phase::Decode,
                        detail: "input is not valid base-58 text".to_owned(),
                    },
                ),
            }
        },
    }
}

} // verus!
