//! The content-identity helper: SHA-256 digests rendered as base-58 text.

use smush::Encoding;
use smush::Quality;
use smush::encode;
use smush::identity::Identity;
use smush::identity::compute_data_identity;
use smush::utilities::compute_identity;

#[test]
fn identity_of_empty_input() {
    assert_eq!(
        compute_identity(b""),
        "GKot5hBsd81kMupNCXHaqbhv3huEbxAFMLnpcX2hniwn"
    );
}

#[test]
fn identity_of_known_input() {
    assert_eq!(
        compute_identity(b"abc"),
        "DYu3G8aGTMBW1WrTw76zxQJQU4DHLw9MLyy7peG4LKkY"
    );
}

#[test]
fn data_identity_fields_agree() {
    let id = compute_data_identity(b"some payload worth naming");
    assert_eq!(id.raw.len(), 32);
    let rendered = encode(&id.raw, Encoding::Base58, Quality::Default).unwrap();
    assert_eq!(rendered.as_slice(), id.txt.as_bytes());
}

#[test]
fn data_identity_is_deterministic() {
    let a = compute_data_identity(b"twice");
    let b = compute_data_identity(b"twice");
    assert_eq!(a, b);
}

#[test]
fn data_identity_distinguishes_content() {
    let a = compute_data_identity(b"one payload");
    let b = compute_data_identity(b"another payload");
    assert_ne!(a, b);
}

#[test]
fn identity_default_is_empty() {
    let id = Identity::default();
    assert!(id.raw.is_empty());
    assert!(id.txt.is_empty());
}
