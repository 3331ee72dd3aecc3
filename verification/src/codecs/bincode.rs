//! The `bincode` codec: a length-prefixed binary framing of the payload.
//!
//! Encoding frames the raw bytes behind their length as eight little-endian
//! bytes; decoding validates the prefix against the remaining length and
//! fails on any truncation or mismatch. It performs no size reduction; it is
//! part of the encoding taxonomy so that framed bytes and compressed bytes on
//! the wire go through the same interface.

use vstd::prelude::*;

use crate::Quality;
use crate::error::Error;
use crate::error::Phase;
use crate::error::is_codec_failure;
use crate::utilities::res_view;

verus! {

/// The eight little-endian bytes of `x`.
pub open spec fn u64_le_bytes(x: u64) -> Seq<u8> {
    let x0 = x as nat;
    let x1 = x0 / 256;
    let x2 = x1 / 256;
    let x3 = x2 / 256;
    let x4 = x3 / 256;
    let x5 = x4 / 256;
    let x6 = x5 / 256;
    let x7 = x6 / 256;
    seq![
        (x0 % 256) as u8,
        (x1 % 256) as u8,
        (x2 % 256) as u8,
        (x3 % 256) as u8,
        (x4 % 256) as u8,
        (x5 % 256) as u8,
        (x6 % 256) as u8,
        (x7 % 256) as u8,
    ]
}

/// The value carried by eight little-endian bytes.
pub open spec fn le_bytes_u64(s: Seq<u8>) -> int
    recommends
        s.len() == 8,
{
    s[0] + 256 * (s[1] + 256 * (s[2] + 256 * (s[3] + 256 * (s[4] + 256 * (s[5] + 256 * (s[6]
        + 256 * s[7]))))))
}

/// The framed form of a payload: its length, little-endian, then its bytes.
pub open spec fn frame(data: Seq<u8>) -> Seq<u8>
    recommends
        data.len() <= u64::MAX,
{
    u64_le_bytes(data.len() as u64) + data
}

/// A buffer is well formed when its length prefix matches what follows it.
pub open spec fn well_formed_frame(data: Seq<u8>) -> bool {
    &&& data.len() >= 8
    &&& le_bytes_u64(data.subrange(0, 8)) == data.len() - 8
}

/// The payload of a well-formed buffer.
pub open spec fn frame_payload(data: Seq<u8>) -> Seq<u8>
    recommends
        well_formed_frame(data),
{
    data.subrange(8, data.len() as int)
}

/// What decoding returns: the payload of a well-formed buffer, and a codec
/// failure on any truncated or mismatched buffer.
pub open spec fn decode_post(data: Seq<u8>, r: Result<Seq<u8>, Error>) -> bool {
    if well_formed_frame(data) {
        r matches Ok(v) && v == frame_payload(data)
    } else {
        r matches Err(e) && is_codec_failure(e, "bincode"@, Phase::Decode)
    }
}

/// Reading the eight little-endian bytes of a value gives the value back.
pub proof fn lemma_le_bytes_inverse(x: u64)
    ensures
        le_bytes_u64(u64_le_bytes(x)) == x,
{
    let x0 = x as nat;
    let x1 = x0 / 256;
    let x2 = x1 / 256;
    let x3 = x2 / 256;
    let x4 = x3 / 256;
    let x5 = x4 / 256;
    let x6 = x5 / 256;
    let x7 = x6 / 256;
    assert(x7 < 256);
    assert(x0 == 256 * x1 + x0 % 256);
    assert(x1 == 256 * x2 + x1 % 256);
    assert(x2 == 256 * x3 + x2 % 256);
    assert(x3 == 256 * x4 + x3 % 256);
    assert(x4 == 256 * x5 + x4 % 256);
    assert(x5 == 256 * x6 + x5 % 256);
    assert(x6 == 256 * x7 + x6 % 256);
    assert(x7 % 256 == x7);
}

/// Framing then decoding gives the payload back: the frame is well formed
/// and carries exactly the bytes that were framed.
pub proof fn lemma_frame_round_trip(data: Seq<u8>)
    requires
        data.len() <= u64::MAX,
    ensures
        well_formed_frame(frame(data)),
        frame_payload(frame(data)) == data,
{
    let f = frame(data);
    lemma_le_bytes_inverse(data.len() as u64);
    assert(f.subrange(0, 8) =~= u64_le_bytes(data.len() as u64));
    assert(f.subrange(8, f.len() as int) =~= data);
}

/// A strict truncation of a frame never decodes: the length prefix no longer
/// matches the bytes that remain.
pub proof fn lemma_truncated_frame_fails(data: Seq<u8>, j: int, r: Result<Seq<u8>, Error>)
    requires
        data.len() <= u64::MAX,
        0 <= j < frame(data).len(),
        decode_post(frame(data).subrange(0, j), r),
    ensures
        r is Err,
{
    let f = frame(data);
    let t = f.subrange(0, j);
    if j >= 8 {
        lemma_le_bytes_inverse(data.len() as u64);
        assert(t.subrange(0, 8) =~= u64_le_bytes(data.len() as u64));
        assert(le_bytes_u64(t.subrange(0, 8)) == data.len());
        assert(t.len() - 8 < data.len());
        assert(!well_formed_frame(t));
    }
}

/// Frame the payload behind its length as eight little-endian bytes.
///
/// The quality level is accepted for interface uniformity; framing has no
/// notion of effort, so it is ignored.
pub fn encode(data: &[u8], _quality: Quality) -> (r: Result<Vec<u8>, Error>)
    ensures
        r matches Ok(v) && v@ == frame(data@),
{
    let x0: u64 = data.len() as u64;
    let x1: u64 = x0 / 256;
    let x2: u64 = x1 / 256;
    let x3: u64 = x2 / 256;
    let x4: u64 = x3 / 256;
    let x5: u64 = x4 / 256;
    let x6: u64 = x5 / 256;
    let x7: u64 = x6 / 256;
    let mut out: Vec<u8> = Vec::new();
    out.push((x0 % 256) as u8);
    out.push((x1 % 256) as u8);
    out.push((x2 % 256) as u8);
    out.push((x3 % 256) as u8);
    out.push((x4 % 256) as u8);
    out.push((x5 % 256) as u8);
    out.push((x6 % 256) as u8);
    out.push((x7 % 256) as u8);
    proof {
        assert(out@ =~= u64_le_bytes(data@.len() as u64));
    }
    let mut i: usize = 0;
    while i < data.len()
        invariant
            i <= data@.len(),
            out@ == u64_le_bytes(data@.len() as u64) + data@.subrange(0, i as int),
        decreases data@.len() - i,
    {
        out.push(data[i]);
        proof {
            assert(data@.subrange(0, i as int).push(data@[i as int]) =~= data@.subrange(
                0,
                i as int + 1,
            ));
            assert(out@ =~= u64_le_bytes(data@.len() as u64) + data@.subrange(0, i as int + 1));
        }
        i = i + 1;
    }
    proof {
        assert(data@.subrange(0, data@.len() as int) =~= data@);
    }
    Ok(out)
}

/// Decode a length-prefixed buffer, validating the prefix against the bytes
/// that actually remain.
pub fn decode(data: &[u8]) -> (r: Result<Vec<u8>, Error>)
    ensures
        decode_post(data@, res_view(r)),
{
    if data.len() < 8 {
        return Err(
            Error::CodecFailure {
                codec: "bincode".to_owned(),
                phase: Phase::Decode,
                detail: "buffer is shorter than its length prefix".to_owned(),
            },
        );
    }
    let b0: u64 = data[0] as u64;
    let b1: u64 = data[1] as u64;
    let b2: u64 = data[2] as u64;
    let b3: u64 = data[3] as u64;
    let b4: u64 = data[4] as u64;
    let b5: u64 = data[5] as u64;
    let b6: u64 = data[6] as u64;
    let b7: u64 = data[7] as u64;
    let v6: u64 = b6 + 256 * b7;
    let v5: u64 = b5 + 256 * v6;
    let v4: u64 = b4 + 256 * v5;
    let v3: u64 = b3 + 256 * v4;
    let v2: u64 = b2 + 256 * v3;
    let v1: u64 = b1 + 256 * v2;
    let v0: u64 = b0 + 256 * v1;
    proof {
        assert(le_bytes_u64(data@.subrange(0, 8)) == v0);
    }
    let remaining: usize = data.len() - 8;
    if v0 != remaining as u64 {
        return Err(
            Error::CodecFailure {
                codec: "bincode".to_owned(),
                phase: Phase::Decode,
                detail: "length prefix does not match the remaining bytes".to_owned(),
            },
        );
    }
    let payload = vstd::slice::slice_subrange(data, 8, data.len());
    Ok(vstd::slice::slice_to_vec(payload))
}

} // verus!
