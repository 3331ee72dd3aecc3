use vstd::prelude::*;

verus! {

/// Whether a codec failure happened while encoding or while decoding.
#[derive(Clone, Copy, Debug, PartialEq, Eq, Structural)]
pub enum Phase {
    Encode,
    Decode,
}

/// An error that can occur while routing a payload to a codec.
///
/// All failures are ordinary values; no operation of this library panics on
/// malformed input.
#[derive(Clone, Debug)]
pub enum Error {
    /// The named built-in codec is not compiled into this build.
    CodecDisabled { name: String },
    /// The encoding is an extension tag, for which no codec can exist.
    UnsupportedCustomEncoding { name: String },
    /// The underlying codec library reported a failure for this payload.
    CodecFailure { codec: String, phase: Phase, detail: String },
    /// A quality token did not name any quality level.
    InvalidQuality { token: String },
}

/// Holds when `e` is a `CodecFailure` of the given codec and phase.
pub open spec fn is_codec_failure(e: Error, codec: Seq<char>, phase: Phase) -> bool {
    &&& e matches Error::CodecFailure { codec: c, phase: p, detail: _ }
    &&& c@ == codec
    &&& p == phase
}

/// Holds when `e` reports the codec with the given token as disabled.
pub open spec fn is_disabled(e: Error, name: Seq<char>) -> bool {
    &&& e matches Error::CodecDisabled { name: n }
    &&& n@ == name
}

/// Holds when `e` reports an extension tag as unsupported.
pub open spec fn is_unsupported_custom(e: Error, name: Seq<char>) -> bool {
    &&& e matches Error::UnsupportedCustomEncoding { name: n }
    &&& n@ == name
}

} // verus!
