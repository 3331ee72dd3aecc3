//! A content-identity helper: the SHA-256 digest of a byte string, rendered
//! as base-58 text. This is a standalone utility beside the encode/decode
//! dispatch; it shares the base-58 text primitive with the `base58` codec.

use vstd::prelude::*;
use vstd::utf8::*;

use crate::codecs::base58::b58_encode;
use crate::codecs::base58::b58_of;

verus! {

/// The 32-byte SHA-256 digest of a byte string.
pub uninterp spec fn sha256_of(data: Seq<u8>) -> Seq<u8>;

/// Relies on sha2::Sha256: the 256-bit digest depends on the input bytes
/// alone.
#[verifier::external_body]
pub(crate) fn sha256(data: &[u8]) -> (r: Vec<u8>)
    ensures
        r@ == sha256_of(data@),
        r@.len() == 32,
{
    <sha2::Sha256 as sha2::Digest>::digest(data).to_vec()
}

/// The identity of a byte string: the raw SHA-256 digest and that digest as
/// base-58 text.
#[derive(Default, Clone, Debug, PartialEq, Eq)]
pub struct Identity {
    pub raw: Vec<u8>,
    pub txt: String,
}

/// Compute the identity of a byte string: its SHA-256 digest, raw and as
/// base-58 text.
pub fn compute_data_identity(data: &[u8]) -> (r: Identity)
    ensures
        r.raw@ == sha256_of(data@),
        r.raw@.len() == 32,
        encode_utf8(r.txt@) == b58_of(sha256_of(data@)),
{
    let raw = sha256(data);
    let txt = b58_encode(raw.as_slice());
    Identity { raw, txt }
}

} // verus!
