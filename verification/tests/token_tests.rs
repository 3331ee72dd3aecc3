//! Parsing and rendering of quality tokens, and the quality parsing error.

use smush::Error;
use smush::Quality;

#[test]
fn quality_tokens_parse() {
    let cases = vec![
        ("default", Quality::Default),
        ("level1", Quality::Level1),
        ("level2", Quality::Level2),
        ("level3", Quality::Level3),
        ("level4", Quality::Level4),
        ("level5", Quality::Level5),
        ("level6", Quality::Level6),
        ("level7", Quality::Level7),
        ("level8", Quality::Level8),
        ("level9", Quality::Level9),
        ("maximum", Quality::Maximum),
    ];
    for (token, expected) in cases {
        assert_eq!(Quality::from_str(token).unwrap(), expected);
        assert_eq!(expected.to_string(), token);
    }
}

#[test]
fn unknown_quality_token_is_an_error() {
    match Quality::from_str("bogus") {
        Err(Error::InvalidQuality { token }) => assert_eq!(token, "bogus"),
        _ => panic!("expected InvalidQuality"),
    }
}

#[test]
fn quality_token_is_case_sensitive() {
    assert!(Quality::from_str("Default").is_err());
    assert!(Quality::from_str("LEVEL5").is_err());
}
