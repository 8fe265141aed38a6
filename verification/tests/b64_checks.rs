//! Checks of the base64 text boundary: exact encodings, round trips, and
//! rejection of non-canonical text.

use textcrypt::process_decode;
use textcrypt::process_encode;
use textcrypt::Base64Format;
use textcrypt::CryptoError;

#[test]
fn encode_exact_values() {
    assert_eq!(process_encode(b"hello", Base64Format::Standard), "aGVsbG8=");
    assert_eq!(process_encode(b"hello", Base64Format::UrlSafe), "aGVsbG8");
    assert_eq!(process_encode(b"", Base64Format::Standard), "");
    assert_eq!(process_encode(b"", Base64Format::UrlSafe), "");
    // The URL-safe alphabet writes `-` and `_` where the standard one
    // writes `+` and `/`.
    assert_eq!(
        process_encode(&[0xfb, 0xff], Base64Format::Standard),
        "+/8="
    );
    assert_eq!(process_encode(&[0xfb, 0xff], Base64Format::UrlSafe), "-_8");
}

#[test]
fn decode_inverts_encode() {
    let samples: [&[u8]; 4] = [b"", b"f", b"hello world", &[0u8, 255, 128, 7]];
    for data in samples {
        let std_text = process_encode(data, Base64Format::Standard);
        assert_eq!(
            process_decode(&std_text, Base64Format::Standard),
            Ok(data.to_vec())
        );
        let url_text = process_encode(data, Base64Format::UrlSafe);
        assert_eq!(
            process_decode(&url_text, Base64Format::UrlSafe),
            Ok(data.to_vec())
        );
    }
}

#[test]
fn decode_trims_surrounding_whitespace() {
    assert_eq!(
        process_decode("  aGVsbG8=\n", Base64Format::Standard),
        Ok(b"hello".to_vec())
    );
    assert_eq!(
        process_decode("\taGVsbG8\r\n", Base64Format::UrlSafe),
        Ok(b"hello".to_vec())
    );
    // Whitespace inside the text is not base64 and not trimmed away.
    assert_eq!(
        process_decode("aGVs bG8=", Base64Format::Standard),
        Err(CryptoError::Encoding)
    );
}

#[test]
fn decode_rejects_invalid_text() {
    assert_eq!(
        process_decode("!!!", Base64Format::Standard),
        Err(CryptoError::Encoding)
    );
    assert_eq!(
        process_decode("!!!", Base64Format::UrlSafe),
        Err(CryptoError::Encoding)
    );
    // Padding is mandatory for the standard alphabet and forbidden for the
    // unpadded URL-safe one.
    assert_eq!(
        process_decode("aGVsbG8", Base64Format::Standard),
        Err(CryptoError::Encoding)
    );
    assert_eq!(
        process_decode("aGVsbG8=", Base64Format::UrlSafe),
        Err(CryptoError::Encoding)
    );
}
