//! Checks of the validated request model: input references, output paths
//! and format tags.

use textcrypt::errors::CryptoError;
use textcrypt::parse_base64_format;
use textcrypt::trimming::trim_text;
use textcrypt::parse_format;
use textcrypt::verify_file;
use textcrypt::verify_path;
use textcrypt::Base64Format;
use textcrypt::TextSignFormat;

#[test]
fn test_verify_input_file() {
    assert_eq!(verify_file("test", false), Err("file not exist"));
    assert_eq!(verify_file("-", false), Ok("-".into()));
    assert_eq!(verify_file("*", false), Err("file not exist"));
    assert_eq!(verify_file("README.md", true), Ok("README.md".into()));
}

#[test]
fn verify_file_accepts_stdin_marker_always() {
    assert_eq!(verify_file("-", true), Ok("-".into()));
    assert_eq!(verify_file("input.txt", true), Ok("input.txt".into()));
    assert_eq!(verify_file("input.txt", false), Err("file not exist"));
}

#[test]
fn verify_path_needs_existing_directory() {
    assert_eq!(verify_path("out", true, true), Ok("out".into()));
    assert_eq!(verify_path("out", true, false), Err("path not exist"));
    assert_eq!(verify_path("out", false, false), Err("path not exist"));
}

#[test]
fn parse_format_recognizes_exactly_two_tags() {
    assert_eq!(parse_format("blake3"), Ok(TextSignFormat::Blake3));
    assert_eq!(parse_format("ed25519"), Ok(TextSignFormat::Ed25519));
    assert_eq!(parse_format("hmac"), Err(CryptoError::UnsupportedFormat));
    assert_eq!(parse_format(""), Err(CryptoError::UnsupportedFormat));
    assert_eq!(parse_format("Blake3"), Err(CryptoError::UnsupportedFormat));
}

#[test]
fn trim_strips_only_surrounding_whitespace() {
    assert_eq!(trim_text("  a b \n"), "a b");
    assert_eq!(trim_text(""), "");
    assert_eq!(trim_text(" \t\r\n "), "");
    assert_eq!(trim_text("\u{3000}x\u{2028}"), "x");
    assert_eq!(trim_text("no-space"), "no-space");
}

#[test]
fn parse_base64_format_recognizes_exactly_two_tags() {
    assert_eq!(parse_base64_format("standard"), Ok(Base64Format::Standard));
    assert_eq!(parse_base64_format("urlsafe"), Ok(Base64Format::UrlSafe));
    assert_eq!(
        parse_base64_format("hex"),
        Err(CryptoError::UnsupportedFormat)
    );
}
