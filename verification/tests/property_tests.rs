//! Behavior stated in the library's contracts, exercised on concrete
//! values: round trips across codecs and qualities, the identity law, the
//! capability table, token handling, and the structured failure cases.

use smush::Encoding;
use smush::Error;
use smush::Phase;
use smush::Quality;
use smush::decode;
use smush::encode;
use smush::is_encoding_enabled;

const CORPUS: &[u8] = b"Lorem ipsum dolor sit amet, consectetur adipiscing elit, sed do eiusmod tempor incididunt ut labore et dolore magna aliqua. Ut enim ad minim veniam, quis nostrud exercitation ullamco laboris nisi ut aliquip ex ea commodo consequat.\n\
Duis aute irure dolor in reprehenderit in voluptate velit esse cillum dolore eu fugiat nulla pariatur. Excepteur sint occaecat cupidatat non proident, sunt in culpa qui officia deserunt mollit anim id est laborum.\n\
Sed ut perspiciatis unde omnis iste natus error sit voluptatem accusantium doloremque laudantium, totam rem aperiam, eaque ipsa quae ab illo inventore veritatis et quasi architecto beatae vitae dicta sunt explicabo.\n\
Nemo enim ipsam voluptatem quia voluptas sit aspernatur aut odit aut fugit, sed quia consequuntur magni dolores eos qui ratione voluptatem sequi nesciunt, neque porro quisquam est, qui dolorem ipsum quia dolor sit amet.\n\
Consectetur, adipisci velit, sed quia non numquam eius modi tempora incidunt ut labore et dolore magnam aliquam quaerat voluptatem. Ut enim ad minima veniam, quis nostrum exercitationem ullam corporis suscipit laboriosam.\n\
Nisi ut aliquid ex ea commodi consequatur? Quis autem vel eum iure reprehenderit qui in ea voluptate velit esse quam nihil molestiae consequatur, vel illum qui dolorem eum fugiat quo voluptas nulla pariatur?\n\
At vero eos et accusamus et iusto odio dignissimos ducimus qui blanditiis praesentium voluptatum deleniti atque corrupti quos dolores et quas molestias excepturi sint occaecati cupiditate non provident.\n\
Similique sunt in culpa qui officia deserunt mollitia animi, id est laborum et dolorum fuga. Et harum quidem rerum facilis est et expedita distinctio. Nam libero tempore, cum soluta nobis est eligendi optio cumque.\n\
Nihil impedit quo minus id quod maxime placeat facere possimus, omnis voluptas assumenda est, omnis dolor repellendus. Temporibus autem quibusdam et aut officiis debitis aut rerum necessitatibus saepe eveniet.\n\
Ut et voluptates repudiandae sint et molestiae non recusandae. Itaque earum rerum hic tenetur a sapiente delectus, ut aut reiciendis voluptatibus maiores alias consequatur aut perferendis doloribus asperiores repellat.\n\
Ut enim ad minim veniam, quis nostrud exercitation ullamco laboris nisi ut aliquip ex ea commodo consequat. Duis aute irure dolor in reprehenderit in voluptate velit esse cillum dolore eu fugiat nulla pariatur.\n\
Lorem ipsum dolor sit amet, consectetur adipiscing elit, sed do eiusmod tempor incididunt ut labore et dolore magna aliqua. At vero eos et accusamus et iusto odio dignissimos ducimus qui blanditiis praesentium.\n\
Excepteur sint occaecat cupidatat non proident, sunt in culpa qui officia deserunt mollit anim id est laborum. Sed ut perspiciatis unde omnis iste natus error sit voluptatem accusantium doloremque laudantium.\n\
Totam rem aperiam, eaque ipsa quae ab illo inventore veritatis et quasi architecto beatae vitae dicta sunt explicabo. Nemo enim ipsam voluptatem quia voluptas sit aspernatur aut odit aut fugit, sed quia consequuntur.\n\
";

fn all_qualities() -> Vec<Quality> {
    vec![
        Quality::Default,
        Quality::Level1,
        Quality::Level2,
        Quality::Level3,
        Quality::Level4,
        Quality::Level5,
        Quality::Level6,
        Quality::Level7,
        Quality::Level8,
        Quality::Level9,
        Quality::Maximum,
    ]
}

fn enabled_codecs() -> Vec<Encoding> {
    vec![
        Encoding::Gzip,
        Encoding::Deflate,
        Encoding::Zlib,
        Encoding::Lzma,
        Encoding::Lzma2,
        Encoding::Xz,
        Encoding::BinCode,
        Encoding::Base58,
        Encoding::Identity,
    ]
}

fn round_trip(payload: &[u8], codec: Encoding, quality: Quality) {
    let encoded = encode(payload, codec.clone(), quality).unwrap();
    let decoded = decode(&encoded, codec).unwrap();
    assert_eq!(decoded.as_slice(), payload);
}

#[test]
fn round_trip_every_enabled_codec_and_quality() {
    for codec in enabled_codecs() {
        for quality in all_qualities() {
            round_trip(CORPUS, codec.clone(), quality);
        }
    }
}

#[test]
fn round_trip_empty_payload() {
    for codec in enabled_codecs() {
        round_trip(b"", codec.clone(), Quality::Default);
        round_trip(b"", codec, Quality::Maximum);
    }
}

#[test]
fn round_trip_binary_payload() {
    let mut payload: Vec<u8> = Vec::new();
    for round in 0..16u32 {
        for b in 0..=255u8 {
            payload.push(b.wrapping_add(round as u8));
        }
    }
    for codec in enabled_codecs() {
        round_trip(&payload, codec, Quality::Default);
    }
}

fn large_payload() -> Vec<u8> {
    let mut payload: Vec<u8> = Vec::new();
    while payload.len() < (1 << 20) + (1 << 19) {
        payload.extend_from_slice(CORPUS);
    }
    payload
}

#[test]
fn round_trip_large_payload_flate_family() {
    let payload = large_payload();
    round_trip(&payload, Encoding::Gzip, Quality::Default);
    round_trip(&payload, Encoding::Deflate, Quality::Default);
    round_trip(&payload, Encoding::Zlib, Quality::Default);
}

#[test]
fn round_trip_large_payload_xz() {
    let payload = large_payload();
    round_trip(&payload, Encoding::Xz, Quality::Default);
}

#[test]
fn round_trip_large_payload_lzma_family() {
    let payload = large_payload();
    round_trip(&payload, Encoding::Lzma, Quality::Default);
    round_trip(&payload, Encoding::Lzma2, Quality::Default);
}

#[test]
fn identity_returns_payload_unchanged_at_every_quality() {
    for quality in all_qualities() {
        let encoded = encode(CORPUS, Encoding::Identity, quality).unwrap();
        assert_eq!(encoded.as_slice(), CORPUS);
    }
    let decoded = decode(CORPUS, Encoding::Identity).unwrap();
    assert_eq!(decoded.as_slice(), CORPUS);
}

#[test]
fn disabled_codecs_fail_with_codec_disabled() {
    let disabled = vec![
        (Encoding::Zstd, "zstd"),
        (Encoding::Brotli, "brotli"),
        (Encoding::Lz4, "lz4"),
    ];
    for (codec, token) in disabled {
        assert!(!is_encoding_enabled(codec.clone()));
        match encode(CORPUS, codec.clone(), Quality::Default) {
            Err(Error::CodecDisabled { name }) => assert_eq!(name, token),
            _ => panic!("expected CodecDisabled while encoding"),
        }
        match decode(CORPUS, codec) {
            Err(Error::CodecDisabled { name }) => assert_eq!(name, token),
            _ => panic!("expected CodecDisabled while decoding"),
        }
    }
}

#[test]
fn capability_table_matches_build() {
    for codec in enabled_codecs() {
        assert!(is_encoding_enabled(codec));
    }
    assert!(!is_encoding_enabled(Encoding::EncodingExt("anything".to_string())));
}

#[test]
fn unknown_token_round_trip() {
    let codec = Encoding::from_str("made-up-tag");
    assert_eq!(codec.to_string(), "made-up-tag");
    match encode(CORPUS, codec.clone(), Quality::Default) {
        Err(Error::UnsupportedCustomEncoding { name }) => assert_eq!(name, "made-up-tag"),
        _ => panic!("expected UnsupportedCustomEncoding while encoding"),
    }
    match decode(CORPUS, codec) {
        Err(Error::UnsupportedCustomEncoding { name }) => assert_eq!(name, "made-up-tag"),
        _ => panic!("expected UnsupportedCustomEncoding while decoding"),
    }
}

#[test]
fn builtin_tokens_round_trip() {
    let tokens = vec![
        "gzip", "deflate", "zlib", "zstd", "brotli", "lz4", "lzma", "lzma2", "xz", "bincode",
        "base58", "identity",
    ];
    for token in tokens {
        let codec = Encoding::from_str(token);
        assert!(!matches!(codec, Encoding::EncodingExt(_)));
        assert_eq!(codec.to_string(), token);
    }
}

#[test]
fn encoding_equality_is_structural() {
    assert_eq!(Encoding::from_str("gzip"), Encoding::Gzip);
    assert_ne!(Encoding::Gzip, Encoding::Zlib);
    assert_eq!(
        Encoding::from_str("made-up-tag"),
        Encoding::EncodingExt("made-up-tag".to_string())
    );
    assert_ne!(
        Encoding::EncodingExt("one".to_string()),
        Encoding::EncodingExt("two".to_string())
    );
}

#[test]
fn base58_rejects_non_utf8_bytes() {
    match decode(&[0xff, 0xfe, 0x20, 0x41], Encoding::Base58) {
        Err(Error::CodecFailure { codec, phase, detail: _ }) => {
            assert_eq!(codec, "base58");
            assert_eq!(phase, Phase::Decode);
        }
        _ => panic!("expected CodecFailure on non-UTF-8 input"),
    }
}

#[test]
fn base58_rejects_bytes_outside_alphabet() {
    match decode(b"0OIl+/", Encoding::Base58) {
        Err(Error::CodecFailure { codec, phase, detail: _ }) => {
            assert_eq!(codec, "base58");
            assert_eq!(phase, Phase::Decode);
        }
        _ => panic!("expected CodecFailure on non-alphabet input"),
    }
}

#[test]
fn base58_accepts_surrounding_whitespace() {
    let encoded = encode(CORPUS, Encoding::Base58, Quality::Default).unwrap();
    let mut padded: Vec<u8> = Vec::new();
    padded.extend_from_slice(b" \t\n");
    padded.extend_from_slice(&encoded);
    padded.extend_from_slice(b"\r\n ");
    let decoded = decode(&padded, Encoding::Base58).unwrap();
    assert_eq!(decoded.as_slice(), CORPUS);
}

#[test]
fn base58_accepts_surrounding_unicode_whitespace() {
    let encoded = encode(CORPUS, Encoding::Base58, Quality::Default).unwrap();
    let mut padded: Vec<u8> = Vec::new();
    padded.extend_from_slice("\u{a0}\u{2003}".as_bytes());
    padded.extend_from_slice(&encoded);
    padded.extend_from_slice("\u{2028}\u{3000}".as_bytes());
    let decoded = decode(&padded, Encoding::Base58).unwrap();
    assert_eq!(decoded.as_slice(), CORPUS);
}

#[test]
fn base58_known_text() {
    let encoded = encode(b"hello world", Encoding::Base58, Quality::Level1).unwrap();
    assert_eq!(encoded.as_slice(), b"StV1DL6CwTryKyV".as_slice());
}

#[test]
fn bincode_frame_layout() {
    let encoded = encode(b"abc", Encoding::BinCode, Quality::Default).unwrap();
    assert_eq!(
        encoded.as_slice(),
        &[3u8, 0, 0, 0, 0, 0, 0, 0, b'a', b'b', b'c']
    );
}

#[test]
fn bincode_rejects_truncation() {
    let encoded = encode(CORPUS, Encoding::BinCode, Quality::Default).unwrap();
    let truncated = &encoded[..encoded.len() - 1];
    match decode(truncated, Encoding::BinCode) {
        Err(Error::CodecFailure { codec, phase, detail: _ }) => {
            assert_eq!(codec, "bincode");
            assert_eq!(phase, Phase::Decode);
        }
        _ => panic!("expected CodecFailure on truncated frame"),
    }
    match decode(&encoded[..4], Encoding::BinCode) {
        Err(Error::CodecFailure { .. }) => {}
        _ => panic!("expected CodecFailure on frame shorter than its prefix"),
    }
}

#[test]
fn bincode_rejects_length_mismatch() {
    let mut encoded = encode(CORPUS, Encoding::BinCode, Quality::Default).unwrap();
    encoded.push(0);
    match decode(&encoded, Encoding::BinCode) {
        Err(Error::CodecFailure { codec, phase: _, detail: _ }) => assert_eq!(codec, "bincode"),
        _ => panic!("expected CodecFailure on length mismatch"),
    }
}

#[test]
fn malformed_streams_fail_without_panicking() {
    let garbage = b"not a valid compressed stream at all";
    let codecs = vec![
        Encoding::Gzip,
        Encoding::Deflate,
        Encoding::Zlib,
        Encoding::Lzma2,
        Encoding::Xz,
        Encoding::BinCode,
    ];
    for codec in codecs {
        match decode(garbage, codec) {
            Err(Error::CodecFailure { phase, .. }) => assert_eq!(phase, Phase::Decode),
            Err(_) => panic!("expected CodecFailure"),
            Ok(_) => panic!("expected malformed input to be rejected"),
        }
    }
}

#[test]
fn compression_shrinks_redundant_corpus() {
    let mut big: Vec<u8> = Vec::new();
    for _ in 0..16 {
        big.extend_from_slice(CORPUS);
    }
    let shrinking = vec![
        Encoding::Gzip,
        Encoding::Deflate,
        Encoding::Zlib,
        Encoding::Lzma,
        Encoding::Xz,
    ];
    for codec in shrinking {
        for quality in vec![Quality::Default, Quality::Maximum] {
            let encoded = encode(&big, codec.clone(), quality).unwrap();
            assert!(encoded.len() < big.len());
        }
    }
    for quality in vec![Quality::Default, Quality::Maximum] {
        let encoded = encode(&big, Encoding::Lzma2, quality).unwrap();
        assert!(encoded.len() <= big.len() + 16);
    }
}

#[test]
fn compressed_stream_differs_from_payload() {
    for codec in enabled_codecs() {
        if matches!(codec, Encoding::Identity) {
            continue;
        }
        let encoded = encode(CORPUS, codec, Quality::Default).unwrap();
        assert_ne!(encoded.as_slice(), CORPUS);
    }
}

#[test]
fn gzip_maximum_quality_scenario() {
    let encoded = encode(CORPUS, Encoding::Gzip, Quality::Maximum).unwrap();
    assert!(encoded.len() < CORPUS.len());
    let decoded = decode(&encoded, Encoding::Gzip).unwrap();
    assert_eq!(decoded.as_slice(), CORPUS);
}
