//! A unified facade over several byte-transform codecs.
//!
//! The library routes a byte payload, an [`Encoding`] tag and a [`Quality`]
//! level to the matching codec adapter, normalizes every failure into one
//! structured [`Error`] type, and reports which codecs are compiled into this
//! build. The compression and text-codec primitives themselves come from
//! outside libraries; each adapter states in its contract how the routed
//! payload relates to what that primitive computes.

use vstd::prelude::*;

pub mod codecs;
pub mod error;
pub mod identity;
pub mod utilities;

pub use error::Error;
pub use error::Phase;
pub use error::is_codec_failure;
pub use error::is_disabled;
pub use error::is_unsupported_custom;

use crate::utilities::res_view;
use crate::utilities::str_eq;

verus! {

/// A value to represent an encoding.
///
/// The built-in set is closed so dispatch can match exhaustively; the
/// [`Encoding::EncodingExt`] case carries any unrecognized tag verbatim, so
/// parsing a tag never fails.
#[derive(Clone, Debug)]
pub enum Encoding {
    /// The `gzip` encoding.
    Gzip,
    /// The `deflate` encoding.
    Deflate,
    /// The `zlib` encoding.
    Zlib,
    /// The `zstd` encoding.
    Zstd,
    /// The `brotli` encoding.
    Brotli,
    /// The `lz4` encoding.
    Lz4,
    /// The `lzma` encoding.
    Lzma,
    /// The `lzma2` encoding.
    Lzma2,
    /// The `xz` encoding.
    Xz,
    /// The `bincode` encoding: a length-prefixed binary framing.
    BinCode,
    /// The `base58` encoding.
    Base58,
    /// The `identity` encoding: bytes pass through unchanged.
    Identity,
    /// Some other encoding that is less common; carries its tag verbatim.
    EncodingExt(String),
}

/// The canonical token of an encoding; an extension tag renders as itself.
pub open spec fn encoding_token(e: Encoding) -> Seq<char> {
    match e {
        Encoding::Gzip => "gzip"@,
        Encoding::Deflate => "deflate"@,
        Encoding::Zlib => "zlib"@,
        Encoding::Zstd => "zstd"@,
        Encoding::Brotli => "brotli"@,
        Encoding::Lz4 => "lz4"@,
        Encoding::Lzma => "lzma"@,
        Encoding::Lzma2 => "lzma2"@,
        Encoding::Xz => "xz"@,
        Encoding::BinCode => "bincode"@,
        Encoding::Base58 => "base58"@,
        Encoding::Identity => "identity"@,
        Encoding::EncodingExt(s) => s@,
    }
}

/// The built-in encoding named by a token, if any.
pub open spec fn spec_parse_encoding(s: Seq<char>) -> Option<Encoding> {
    if s == "gzip"@ {
        Some(Encoding::Gzip)
    } else if s == "deflate"@ {
        Some(Encoding::Deflate)
    } else if s == "zlib"@ {
        Some(Encoding::Zlib)
    } else if s == "zstd"@ {
        Some(Encoding::Zstd)
    } else if s == "brotli"@ {
        Some(Encoding::Brotli)
    } else if s == "lz4"@ {
        Some(Encoding::Lz4)
    } else if s == "lzma"@ {
        Some(Encoding::Lzma)
    } else if s == "lzma2"@ {
        Some(Encoding::Lzma2)
    } else if s == "xz"@ {
        Some(Encoding::Xz)
    } else if s == "bincode"@ {
        Some(Encoding::BinCode)
    } else if s == "base58"@ {
        Some(Encoding::Base58)
    } else if s == "identity"@ {
        Some(Encoding::Identity)
    } else {
        None
    }
}

/// What parsing a token returns: the built-in encoding when the token is
/// canonical, otherwise the extension case carrying the token verbatim.
pub open spec fn encoding_parse_post(s: Seq<char>, r: Encoding) -> bool {
    match spec_parse_encoding(s) {
        Some(e) => r == e,
        None => r matches Encoding::EncodingExt(t) && t@ == s,
    }
}

/// Equality of encodings up to the characters of an extension tag.
pub open spec fn encoding_eq(a: Encoding, b: Encoding) -> bool {
    match (a, b) {
        (Encoding::Gzip, Encoding::Gzip) => true,
        (Encoding::Deflate, Encoding::Deflate) => true,
        (Encoding::Zlib, Encoding::Zlib) => true,
        (Encoding::Zstd, Encoding::Zstd) => true,
        (Encoding::Brotli, Encoding::Brotli) => true,
        (Encoding::Lz4, Encoding::Lz4) => true,
        (Encoding::Lzma, Encoding::Lzma) => true,
        (Encoding::Lzma2, Encoding::Lzma2) => true,
        (Encoding::Xz, Encoding::Xz) => true,
        (Encoding::BinCode, Encoding::BinCode) => true,
        (Encoding::Base58, Encoding::Base58) => true,
        (Encoding::Identity, Encoding::Identity) => true,
        (Encoding::EncodingExt(x), Encoding::EncodingExt(y)) => x@ == y@,
        _ => false,
    }
}

impl Encoding {
    /// Parse a token into an encoding. Unknown tokens never fail: they
    /// become the extension case carrying the token verbatim.
    pub fn from_str(s: &str) -> (r: Encoding)
        ensures
            encoding_parse_post(s@, r),
    {
        if str_eq(s, "gzip") {
            Encoding::Gzip
        } else if str_eq(s, "deflate") {
            Encoding::Deflate
        } else if str_eq(s, "zlib") {
            Encoding::Zlib
        } else if str_eq(s, "zstd") {
            Encoding::Zstd
        } else if str_eq(s, "brotli") {
            Encoding::Brotli
        } else if str_eq(s, "lz4") {
            Encoding::Lz4
        } else if str_eq(s, "lzma") {
            Encoding::Lzma
        } else if str_eq(s, "lzma2") {
            Encoding::Lzma2
        } else if str_eq(s, "xz") {
            Encoding::Xz
        } else if str_eq(s, "bincode") {
            Encoding::BinCode
        } else if str_eq(s, "base58") {
            Encoding::Base58
        } else if str_eq(s, "identity") {
            Encoding::Identity
        } else {
            Encoding::EncodingExt(s.to_owned())
        }
    }

    /// Render the encoding as its canonical token.
    pub fn to_string(&self) -> (r: String)
        ensures
            r@ == encoding_token(*self),
    {
        match self {
            Encoding::Gzip => "gzip".to_owned(),
            Encoding::Deflate => "deflate".to_owned(),
            Encoding::Zlib => "zlib".to_owned(),
            Encoding::Zstd => "zstd".to_owned(),
            Encoding::Brotli => "brotli".to_owned(),
            Encoding::Lz4 => "lz4".to_owned(),
            Encoding::Lzma => "lzma".to_owned(),
            Encoding::Lzma2 => "lzma2".to_owned(),
            Encoding::Xz => "xz".to_owned(),
            Encoding::BinCode => "bincode".to_owned(),
            Encoding::Base58 => "base58".to_owned(),
            Encoding::Identity => "identity".to_owned(),
            Encoding::EncodingExt(s) => s.clone(),
        }
    }
}

impl PartialEq for Encoding {
    fn eq(&self, other: &Encoding) -> (r: bool) {
        match (self, other) {
            (Encoding::Gzip, Encoding::Gzip) => true,
            (Encoding::Deflate, Encoding::Deflate) => true,
            (Encoding::Zlib, Encoding::Zlib) => true,
            (Encoding::Zstd, Encoding::Zstd) => true,
            (Encoding::Brotli, Encoding::Brotli) => true,
            (Encoding::Lz4, Encoding::Lz4) => true,
            (Encoding::Lzma, Encoding::Lzma) => true,
            (Encoding::Lzma2, Encoding::Lzma2) => true,
            (Encoding::Xz, Encoding::Xz) => true,
            (Encoding::BinCode, Encoding::BinCode) => true,
            (Encoding::Base58, Encoding::Base58) => true,
            (Encoding::Identity, Encoding::Identity) => true,
            (Encoding::EncodingExt(x), Encoding::EncodingExt(y)) => *x == *y,
            _ => false,
        }
    }
}

impl vstd::std_specs::cmp::PartialEqSpecImpl for Encoding {
    open spec fn obeys_eq_spec() -> bool {
        true
    }

    open spec fn eq_spec(&self, other: &Encoding) -> bool {
        encoding_eq(*self, *other)
    }
}

/// A value to represent an encoding quality: the effort/ratio trade-off,
/// independent of which codec is selected.
#[derive(Clone, Copy, Debug, PartialEq, Eq, Structural)]
pub enum Quality {
    Default,
    Level1,
    Level2,
    Level3,
    Level4,
    Level5,
    Level6,
    Level7,
    Level8,
    Level9,
    Maximum,
}

/// The canonical token of a quality level.
pub open spec fn quality_token(q: Quality) -> Seq<char> {
    match q {
        Quality::Default => "default"@,
        Quality::Level1 => "level1"@,
        Quality::Level2 => "level2"@,
        Quality::Level3 => "level3"@,
        Quality::Level4 => "level4"@,
        Quality::Level5 => "level5"@,
        Quality::Level6 => "level6"@,
        Quality::Level7 => "level7"@,
        Quality::Level8 => "level8"@,
        Quality::Level9 => "level9"@,
        Quality::Maximum => "maximum"@,
    }
}

/// The quality level named by a token, if any.
pub open spec fn spec_parse_quality(s: Seq<char>) -> Option<Quality> {
    if s == "default"@ {
        Some(Quality::Default)
    } else if s == "level1"@ {
        Some(Quality::Level1)
    } else if s == "level2"@ {
        Some(Quality::Level2)
    } else if s == "level3"@ {
        Some(Quality::Level3)
    } else if s == "level4"@ {
        Some(Quality::Level4)
    } else if s == "level5"@ {
        Some(Quality::Level5)
    } else if s == "level6"@ {
        Some(Quality::Level6)
    } else if s == "level7"@ {
        Some(Quality::Level7)
    } else if s == "level8"@ {
        Some(Quality::Level8)
    } else if s == "level9"@ {
        Some(Quality::Level9)
    } else if s == "maximum"@ {
        Some(Quality::Maximum)
    } else {
        None
    }
}

impl Quality {
    /// Parse a quality token. Unlike encodings there is no open extension
    /// case: an unknown token is a caller error.
    pub fn from_str(s: &str) -> (r: Result<Quality, Error>)
        ensures
            match spec_parse_quality(s@) {
                Some(q) => r matches Ok(p) && p == q,
                None => r matches Err(e) && e matches Error::InvalidQuality { token } && token@
                    == s@,
            },
    {
        if str_eq(s, "default") {
            Ok(Quality::Default)
        } else if str_eq(s, "level1") {
            Ok(Quality::Level1)
        } else if str_eq(s, "level2") {
            Ok(Quality::Level2)
        } else if str_eq(s, "level3") {
            Ok(Quality::Level3)
        } else if str_eq(s, "level4") {
            Ok(Quality::Level4)
        } else if str_eq(s, "level5") {
            Ok(Quality::Level5)
        } else if str_eq(s, "level6") {
            Ok(Quality::Level6)
        } else if str_eq(s, "level7") {
            Ok(Quality::Level7)
        } else if str_eq(s, "level8") {
            Ok(Quality::Level8)
        } else if str_eq(s, "level9") {
            Ok(Quality::Level9)
        } else if str_eq(s, "maximum") {
            Ok(Quality::Maximum)
        } else {
            Err(Error::InvalidQuality { token: s.to_owned() })
        }
    }

    /// Render the quality level as its canonical token.
    pub fn to_string(&self) -> (r: String)
        ensures
            r@ == quality_token(*self),
    {
        match self {
            Quality::Default => "default".to_owned(),
            Quality::Level1 => "level1".to_owned(),
            Quality::Level2 => "level2".to_owned(),
            Quality::Level3 => "level3".to_owned(),
            Quality::Level4 => "level4".to_owned(),
            Quality::Level5 => "level5".to_owned(),
            Quality::Level6 => "level6".to_owned(),
            Quality::Level7 => "level7".to_owned(),
            Quality::Level8 => "level8".to_owned(),
            Quality::Level9 => "level9".to_owned(),
            Quality::Maximum => "maximum".to_owned(),
        }
    }
}

/// Which codecs are compiled into this build: the identity pass-through is
/// always available; the zstd, brotli and lz4 adapters are not linked in
/// this build; an extension tag never has an implementation.
pub open spec fn enabled_spec(e: Encoding) -> bool {
    match e {
        Encoding::Gzip => true,
        Encoding::Deflate => true,
        Encoding::Zlib => true,
        Encoding::Zstd => false,
        Encoding::Brotli => false,
        Encoding::Lz4 => false,
        Encoding::Lzma => true,
        Encoding::Lzma2 => true,
        Encoding::Xz => true,
        Encoding::BinCode => true,
        Encoding::Base58 => true,
        Encoding::Identity => true,
        Encoding::EncodingExt(_) => false,
    }
}

/// What `encode` returns: the identity passes the payload through, each
/// enabled codec meets its adapter's contract, a disabled codec and an
/// extension tag fail with their structured errors.
pub open spec fn encode_post(
    data: Seq<u8>,
    e: Encoding,
    q: Quality,
    r: Result<Seq<u8>, Error>,
) -> bool {
    match e {
        Encoding::Gzip => codecs::gzip::encode_post(data, q, r),
        Encoding::Deflate => codecs::deflate::encode_post(data, q, r),
        Encoding::Zlib => codecs::zlib::encode_post(data, q, r),
        Encoding::Zstd => r matches Err(er) && is_disabled(er, "zstd"@),
        Encoding::Brotli => r matches Err(er) && is_disabled(er, "brotli"@),
        Encoding::Lz4 => r matches Err(er) && is_disabled(er, "lz4"@),
        Encoding::Lzma => codecs::lzma::encode_post(data, r),
        Encoding::Lzma2 => codecs::lzma2::encode_post(data, r),
        Encoding::Xz => codecs::xz::encode_post(data, q, r),
        Encoding::BinCode => r matches Ok(v) && v == codecs::bincode::frame(data),
        Encoding::Base58 => codecs::base58::encode_post(data, r),
        Encoding::Identity => r matches Ok(v) && v == data,
        Encoding::EncodingExt(name) => r matches Err(er) && is_unsupported_custom(er, name@),
    }
}

/// What `decode` returns: the identity passes the payload through, each
/// enabled codec meets its adapter's contract, a disabled codec and an
/// extension tag fail with their structured errors.
pub open spec fn decode_post(data: Seq<u8>, e: Encoding, r: Result<Seq<u8>, Error>) -> bool {
    match e {
        Encoding::Gzip => codecs::gzip::decode_post(data, r),
        Encoding::Deflate => codecs::deflate::decode_post(data, r),
        Encoding::Zlib => codecs::zlib::decode_post(data, r),
        Encoding::Zstd => r matches Err(er) && is_disabled(er, "zstd"@),
        Encoding::Brotli => r matches Err(er) && is_disabled(er, "brotli"@),
        Encoding::Lz4 => r matches Err(er) && is_disabled(er, "lz4"@),
        Encoding::Lzma => codecs::lzma::decode_post(data, r),
        Encoding::Lzma2 => codecs::lzma2::decode_post(data, r),
        Encoding::Xz => codecs::xz::decode_post(data, r),
        Encoding::BinCode => codecs::bincode::decode_post(data, r),
        Encoding::Base58 => codecs::base58::decode_post(data, r),
        Encoding::Identity => r matches Ok(v) && v == data,
        Encoding::EncodingExt(name) => r matches Err(er) && is_unsupported_custom(er, name@),
    }
}

/// Route the payload to the selected codec's compressor.
///
/// The identity encoding returns the payload unchanged and bypasses the
/// capability table; a disabled codec fails with `CodecDisabled`; an
/// extension tag fails with `UnsupportedCustomEncoding`; everything else is
/// delegated to the matching adapter.
pub fn encode(data: &[u8], encoding: Encoding, quality: Quality) -> (r: Result<Vec<u8>, Error>)
    ensures
        encode_post(data@, encoding, quality, res_view(r)),
{
    match encoding {
        Encoding::Gzip => codecs::gzip::encode(data, quality),
        Encoding::Deflate => codecs::deflate::encode(data, quality),
        Encoding::Zlib => codecs::zlib::encode(data, quality),
        Encoding::Zstd => Err(Error::CodecDisabled { name: "zstd".to_owned() }),
        Encoding::Brotli => Err(Error::CodecDisabled { name: "brotli".to_owned() }),
        Encoding::Lz4 => Err(Error::CodecDisabled { name: "lz4".to_owned() }),
        Encoding::Lzma => codecs::lzma::encode(data, quality),
        Encoding::Lzma2 => codecs::lzma2::encode(data, quality),
        Encoding::Xz => codecs::xz::encode(data, quality),
        Encoding::BinCode => codecs::bincode::encode(data, quality),
        Encoding::Base58 => codecs::base58::encode(data, quality),
        Encoding::Identity => Ok(vstd::slice::slice_to_vec(data)),
        Encoding::EncodingExt(name) => Err(Error::UnsupportedCustomEncoding { name }),
    }
}

/// Route the payload to the selected codec's decompressor.
///
/// Decoding takes no quality: decompression has no effort parameter. The
/// routing mirrors `encode`.
pub fn decode(data: &[u8], encoding: Encoding) -> (r: Result<Vec<u8>, Error>)
    ensures
        decode_post(data@, encoding, res_view(r)),
{
    match encoding {
        Encoding::Gzip => codecs::gzip::decode(data),
        Encoding::Deflate => codecs::deflate::decode(data),
        Encoding::Zlib => codecs::zlib::decode(data),
        Encoding::Zstd => Err(Error::CodecDisabled { name: "zstd".to_owned() }),
        Encoding::Brotli => Err(Error::CodecDisabled { name: "brotli".to_owned() }),
        Encoding::Lz4 => Err(Error::CodecDisabled { name: "lz4".to_owned() }),
        Encoding::Lzma => codecs::lzma::decode(data),
        Encoding::Lzma2 => codecs::lzma2::decode(data),
        Encoding::Xz => codecs::xz::decode(data),
        Encoding::BinCode => codecs::bincode::decode(data),
        Encoding::Base58 => codecs::base58::decode(data),
        Encoding::Identity => Ok(vstd::slice::slice_to_vec(data)),
        Encoding::EncodingExt(name) => Err(Error::UnsupportedCustomEncoding { name }),
    }
}

/// Report whether the selected codec is compiled into this build.
pub fn is_encoding_enabled(encoding: Encoding) -> (b: bool)
    ensures
        b == enabled_spec(encoding),
{
    match encoding {
        Encoding::Gzip => true,
        Encoding::Deflate => true,
        Encoding::Zlib => true,
        Encoding::Zstd => false,
        Encoding::Brotli => false,
        Encoding::Lz4 => false,
        Encoding::Lzma => true,
        Encoding::Lzma2 => true,
        Encoding::Xz => true,
        Encoding::BinCode => true,
        Encoding::Base58 => true,
        Encoding::Identity => true,
        Encoding::EncodingExt(_) => false,
    }
}

/// Round trip: whatever an enabled codec encoded, at any quality, decoding
/// with the same encoding gives back exactly.
pub proof fn lemma_round_trip(
    data: Seq<u8>,
    e: Encoding,
    q: Quality,
    enc: Seq<u8>,
    r: Result<Seq<u8>, Error>,
)
    requires
        data.len() <= u64::MAX,
        encode_post(data, e, q, Ok(enc)),
        decode_post(enc, e, r),
    ensures
        r matches Ok(v) && v == data,
{
    match e {
        Encoding::Gzip => {
            assert(0 <= codecs::gzip::spec_level(q) <= 9);
        },
        Encoding::Deflate => {
            assert(0 <= codecs::deflate::spec_level(q) <= 9);
        },
        Encoding::Zlib => {
            assert(0 <= codecs::zlib::spec_level(q) <= 9);
        },
        Encoding::Xz => {
            assert(0 <= codecs::xz::spec_preset(q) <= 9);
        },
        Encoding::BinCode => {
            codecs::bincode::lemma_frame_round_trip(data);
        },
        Encoding::Base58 => {
            codecs::base58::lemma_b58_text_untrimmed(enc);
        },
        _ => {},
    }
}

/// Identity law for encoding: the payload comes back unchanged, whatever the
/// quality.
pub proof fn lemma_identity_encode(data: Seq<u8>, q: Quality, r: Result<Seq<u8>, Error>)
    requires
        encode_post(data, Encoding::Identity, q, r),
    ensures
        r matches Ok(v) && v == data,
{
}

/// Identity law for decoding: the payload comes back unchanged.
pub proof fn lemma_identity_decode(data: Seq<u8>, r: Result<Seq<u8>, Error>)
    requires
        decode_post(data, Encoding::Identity, r),
    ensures
        r matches Ok(v) && v == data,
{
}

/// A disabled codec is reported as such: its capability flag is off, and
/// both encoding and decoding fail with `CodecDisabled` carrying its token.
pub proof fn lemma_disabled_codec(
    data: Seq<u8>,
    e: Encoding,
    q: Quality,
    re: Result<Seq<u8>, Error>,
    rd: Result<Seq<u8>, Error>,
)
    requires
        !enabled_spec(e),
        !(e matches Encoding::EncodingExt(_)),
        encode_post(data, e, q, re),
        decode_post(data, e, rd),
    ensures
        re matches Err(err) && is_disabled(err, encoding_token(e)),
        rd matches Err(err) && is_disabled(err, encoding_token(e)),
{
}

/// An extension tag is never implementable: its capability flag is off, and
/// both encoding and decoding fail with `UnsupportedCustomEncoding` carrying
/// the tag verbatim.
pub proof fn lemma_extension_unsupported(
    data: Seq<u8>,
    e: Encoding,
    tag: Seq<char>,
    q: Quality,
    re: Result<Seq<u8>, Error>,
    rd: Result<Seq<u8>, Error>,
)
    requires
        e matches Encoding::EncodingExt(t) && t@ == tag,
        encode_post(data, e, q, re),
        decode_post(data, e, rd),
    ensures
        !enabled_spec(e),
        re matches Err(err) && is_unsupported_custom(err, tag),
        rd matches Err(err) && is_unsupported_custom(err, tag),
{
}

/// Parsing any token and rendering the result gives the token back: a
/// canonical token comes back from its built-in encoding, and any other
/// token is preserved verbatim by the extension case.
pub proof fn lemma_parse_render_round_trip(s: Seq<char>, e: Encoding, out: Seq<char>)
    requires
        encoding_parse_post(s, e),
        out == encoding_token(e),
    ensures
        out == s,
{
}

/// Rendering an encoding and parsing the token back gives the encoding
/// again, for every encoding except an extension tag that spells a
/// canonical token.
pub proof fn lemma_render_parse_round_trip(e: Encoding, e2: Encoding)
    requires
        e matches Encoding::EncodingExt(t) ==> spec_parse_encoding(t@) is None,
        encoding_parse_post(encoding_token(e), e2),
    ensures
        encoding_eq(e, e2),
{
    broadcast use vstd::string::group_string_axioms;

    reveal_strlit("gzip");
    reveal_strlit("deflate");
    reveal_strlit("zlib");
    reveal_strlit("zstd");
    reveal_strlit("brotli");
    reveal_strlit("lz4");
    reveal_strlit("lzma");
    reveal_strlit("lzma2");
    reveal_strlit("xz");
    reveal_strlit("bincode");
    reveal_strlit("base58");
    reveal_strlit("identity");
    assert("gzip"@.len() == 4);
    assert("deflate"@.len() == 7);
    assert("zlib"@.len() == 4);
    assert("zstd"@.len() == 4);
    assert("brotli"@.len() == 6);
    assert("lz4"@.len() == 3);
    assert("lzma"@.len() == 4);
    assert("lzma2"@.len() == 5);
    assert("xz"@.len() == 2);
    assert("bincode"@.len() == 7);
    assert("base58"@.len() == 6);
    assert("identity"@.len() == 8);
    assert("gzip"@[0] == 'g');
    assert("zlib"@[0] == 'z');
    assert("zstd"@[0] == 'z');
    assert("lzma"@[0] == 'l');
    assert("zlib"@[1] == 'l');
    assert("zstd"@[1] == 's');
    assert("brotli"@[1] == 'r');
    assert("base58"@[1] == 'a');
    assert("deflate"@[0] == 'd');
    assert("bincode"@[0] == 'b');
    match e {
        Encoding::Gzip => assert(spec_parse_encoding(encoding_token(e)) == Some(e)),
        Encoding::Deflate => assert(spec_parse_encoding(encoding_token(e)) == Some(e)),
        Encoding::Zlib => assert(spec_parse_encoding(encoding_token(e)) == Some(e)),
        Encoding::Zstd => assert(spec_parse_encoding(encoding_token(e)) == Some(e)),
        Encoding::Brotli => assert(spec_parse_encoding(encoding_token(e)) == Some(e)),
        Encoding::Lz4 => assert(spec_parse_encoding(encoding_token(e)) == Some(e)),
        Encoding::Lzma => assert(spec_parse_encoding(encoding_token(e)) == Some(e)),
        Encoding::Lzma2 => assert(spec_parse_encoding(encoding_token(e)) == Some(e)),
        Encoding::Xz => assert(spec_parse_encoding(encoding_token(e)) == Some(e)),
        Encoding::BinCode => assert(spec_parse_encoding(encoding_token(e)) == Some(e)),
        Encoding::Base58 => assert(spec_parse_encoding(encoding_token(e)) == Some(e)),
        Encoding::Identity => assert(spec_parse_encoding(encoding_token(e)) == Some(e)),
        Encoding::EncodingExt(_) => {},
    }
}

} // verus!
