//! Checks of the three algorithm families and the process facade: round
//! trips, tamper detection, cross-key rejection, key validation, and the
//! concrete scenarios.

use textcrypt::process_decode;
use textcrypt::process_decrypt;
use textcrypt::process_encrypt;
use textcrypt::process_gen_key;
use textcrypt::process_sign;
use textcrypt::process_verify;
use textcrypt::Base64Format;
use textcrypt::Blake3;
use textcrypt::Chacha;
use textcrypt::CryptoError;
use textcrypt::Ed25519Signer;
use textcrypt::Ed25519Verifier;
use textcrypt::KeyGenerator;
use textcrypt::TextSign;
use textcrypt::TextSignFormat;
use textcrypt::TextVerify;

const HASH_KEY: &[u8] = b"01234567890123456789012345678901";

#[test]
fn test_blake3_sign_verify() {
    let black3 = Blake3::try_new(HASH_KEY).unwrap();

    let data = b"hello world";
    let sig = black3.sign(data);
    assert!(black3.verify(data, &sig));
}

#[test]
fn test_ed25519_sign_verify() {
    let keys = Ed25519Signer::generate().unwrap();
    let sk = Ed25519Signer::try_new(&keys[0]).unwrap();
    let pk = Ed25519Verifier::try_new(&keys[1]).unwrap();

    let data = b"hello world";
    let sig = sk.sign(data);
    assert!(pk.verify(data, &sig));
}

#[test]
fn test_chacha20poly1305_encrypt_decrypt() {
    let k = "Wa4fY3nwH%frPnF8_G*JBK54a_*mwW&g";
    let text = "hello!";

    let chacha = Chacha::try_new(k.as_bytes()).unwrap();
    let encrypted = chacha.encrypt(text.as_bytes());
    let decrypted = chacha.decrypt(&encrypted).unwrap();
    assert_eq!(decrypted, text.as_bytes().to_vec());
}

#[test]
fn scenario_keyed_hash_fixed_key() {
    let data = b"hello world";
    let blake3 = Blake3::try_new(HASH_KEY).unwrap();
    let digest = blake3.sign(data);
    assert_eq!(digest.len(), 32);
    // Deterministic: signing again yields the same digest.
    assert_eq!(blake3.sign(data), digest);

    let sig_text = process_sign(data, HASH_KEY, TextSignFormat::Blake3).unwrap();
    assert_eq!(
        process_verify(data, HASH_KEY, TextSignFormat::Blake3, &sig_text),
        Ok(true)
    );
    assert_eq!(
        process_verify(b"hello World", HASH_KEY, TextSignFormat::Blake3, &sig_text),
        Ok(false)
    );
}

#[test]
fn keyed_hash_tamper_detection() {
    let data = b"hello world";
    let sig_text = process_sign(data, HASH_KEY, TextSignFormat::Blake3).unwrap();

    // Flipping any single bit of the input flips the verdict to false.
    for i in 0..data.len() {
        for bit in 0..8 {
            let mut tampered = data.to_vec();
            tampered[i] ^= 1 << bit;
            assert_eq!(
                process_verify(&tampered, HASH_KEY, TextSignFormat::Blake3, &sig_text),
                Ok(false)
            );
        }
    }

    // Flipping any single bit of the 32-byte digest flips it too.
    let digest = process_decode(&sig_text, Base64Format::UrlSafe).unwrap();
    for i in 0..digest.len() {
        for bit in 0..8 {
            let mut tampered = digest.clone();
            tampered[i] ^= 1 << bit;
            let tampered_text = textcrypt::process_encode(&tampered, Base64Format::UrlSafe);
            assert_eq!(
                process_verify(data, HASH_KEY, TextSignFormat::Blake3, &tampered_text),
                Ok(false)
            );
        }
    }
}

#[test]
fn scenario_asymmetric_pair() {
    let keys = process_gen_key(TextSignFormat::Ed25519).unwrap();
    assert_eq!(keys.len(), 2);
    assert_eq!(keys[0].len(), 32);
    assert_eq!(keys[1].len(), 32);

    let data = b"hello world";
    let sig_text = process_sign(data, &keys[0], TextSignFormat::Ed25519).unwrap();
    assert_eq!(
        process_verify(data, &keys[1], TextSignFormat::Ed25519, &sig_text),
        Ok(true)
    );

    // A freshly generated, unrelated public key rejects the signature.
    let other = process_gen_key(TextSignFormat::Ed25519).unwrap();
    assert_eq!(
        process_verify(data, &other[1], TextSignFormat::Ed25519, &sig_text),
        Ok(false)
    );
}

#[test]
fn asymmetric_tamper_detection() {
    let keys = process_gen_key(TextSignFormat::Ed25519).unwrap();
    let data = b"hello world";
    let sig_text = process_sign(data, &keys[0], TextSignFormat::Ed25519).unwrap();

    for i in 0..data.len() {
        for bit in 0..8 {
            let mut tampered = data.to_vec();
            tampered[i] ^= 1 << bit;
            assert_eq!(
                process_verify(&tampered, &keys[1], TextSignFormat::Ed25519, &sig_text),
                Ok(false)
            );
        }
    }

    let sig = process_decode(&sig_text, Base64Format::UrlSafe).unwrap();
    assert_eq!(sig.len(), 64);
    for i in 0..sig.len() {
        for bit in 0..8 {
            let mut tampered = sig.clone();
            tampered[i] ^= 1 << bit;
            let tampered_text = textcrypt::process_encode(&tampered, Base64Format::UrlSafe);
            assert_eq!(
                process_verify(data, &keys[1], TextSignFormat::Ed25519, &tampered_text),
                Ok(false)
            );
        }
    }
}

#[test]
fn asymmetric_signing_is_deterministic() {
    let keys = process_gen_key(TextSignFormat::Ed25519).unwrap();
    let data = b"deterministic scheme";
    let first = process_sign(data, &keys[0], TextSignFormat::Ed25519).unwrap();
    let second = process_sign(data, &keys[0], TextSignFormat::Ed25519).unwrap();
    assert_eq!(first, second);
}

#[test]
fn malformed_signature_is_false_not_error() {
    // A decodable signature of the wrong length is an ordinary mismatch.
    let short_sig = textcrypt::process_encode(b"way too short", Base64Format::UrlSafe);
    let keys = process_gen_key(TextSignFormat::Ed25519).unwrap();
    assert_eq!(
        process_verify(b"hello", &keys[1], TextSignFormat::Ed25519, &short_sig),
        Ok(false)
    );
    // Text that is no base64url at all is an encoding error.
    assert_eq!(
        process_verify(b"hello", HASH_KEY, TextSignFormat::Blake3, "!!!"),
        Err(CryptoError::Encoding)
    );
    // Pure whitespace trims to the empty text, which decodes to zero
    // signature bytes: an ordinary mismatch, not an error.
    assert_eq!(
        process_verify(b"hello", HASH_KEY, TextSignFormat::Blake3, "   "),
        Ok(false)
    );
}

#[test]
fn scenario_cipher_round_trip() {
    let key = b"Wa4fY3nwH%frPnF8_G*JBK54a_*mwW&g";
    let encrypted = process_encrypt(b"hello!", key).unwrap();
    assert_eq!(process_decrypt(&encrypted, key), Ok("hello!".to_string()));
}

#[test]
fn boundary_text_tolerates_surrounding_whitespace() {
    let key = b"Wa4fY3nwH%frPnF8_G*JBK54a_*mwW&g";
    let encrypted = process_encrypt(b"hello!", key).unwrap();
    let wrapped = format!(" \t{}\n", encrypted);
    assert_eq!(process_decrypt(&wrapped, key), Ok("hello!".to_string()));

    let data = b"hello world";
    let sig_text = process_sign(data, HASH_KEY, TextSignFormat::Blake3).unwrap();
    let wrapped_sig = format!("{}\n", sig_text);
    assert_eq!(
        process_verify(data, HASH_KEY, TextSignFormat::Blake3, &wrapped_sig),
        Ok(true)
    );
}

#[test]
fn cipher_round_trip_various_plaintexts() {
    let key = b"Wa4fY3nwH%frPnF8_G*JBK54a_*mwW&g";
    let samples: [&[u8]; 4] = [b"", b"a", b"hello world, hello world", &[7u8; 300]];
    for pt in samples {
        let chacha = Chacha::try_new(key).unwrap();
        let encrypted = chacha.encrypt(pt);
        assert_eq!(chacha.decrypt(&encrypted), Ok(pt.to_vec()));
    }
}

#[test]
fn cipher_tag_mismatch_rejection() {
    let key = b"Wa4fY3nwH%frPnF8_G*JBK54a_*mwW&g";
    let encrypted = process_encrypt(b"hello!", key).unwrap();
    let sealed = process_decode(&encrypted, Base64Format::UrlSafe).unwrap();
    assert_eq!(sealed.len(), 6 + 16);

    // Corrupting any byte of ciphertext or tag must fail the tag check.
    for i in 0..sealed.len() {
        let mut tampered = sealed.clone();
        tampered[i] ^= 0x5a;
        let tampered_text = textcrypt::process_encode(&tampered, Base64Format::UrlSafe);
        assert_eq!(
            process_decrypt(&tampered_text, key),
            Err(CryptoError::TagMismatch)
        );
    }

    // A wrong key of the right length fails the same way.
    let wrong_key = b"00000000000000000000000000000000";
    assert_eq!(
        process_decrypt(&encrypted, wrong_key),
        Err(CryptoError::TagMismatch)
    );

    // Ciphertext text that is no base64url is an encoding error.
    assert_eq!(process_decrypt("!!!", key), Err(CryptoError::Encoding));
}

#[test]
fn decrypted_bytes_must_be_text() {
    let key = b"Wa4fY3nwH%frPnF8_G*JBK54a_*mwW&g";
    let chacha = Chacha::try_new(key).unwrap();
    let encrypted = chacha.encrypt(&[0xff, 0xfe, 0x00]);
    // The core cipher hands the raw bytes back.
    assert_eq!(chacha.decrypt(&encrypted), Ok(vec![0xff, 0xfe, 0x00]));
    // The facade refuses to present them as text.
    assert_eq!(process_decrypt(&encrypted, key), Err(CryptoError::NotText));
}

#[test]
fn key_length_validation() {
    let short = b"0123456789012345678901234567890";
    assert_eq!(short.len(), 31);

    assert_eq!(
        Blake3::try_new(short).err(),
        Some(CryptoError::KeyFormat)
    );
    assert_eq!(
        Ed25519Signer::try_new(short).err(),
        Some(CryptoError::KeyFormat)
    );
    assert_eq!(
        Ed25519Verifier::try_new(short).err(),
        Some(CryptoError::KeyFormat)
    );
    assert_eq!(
        Chacha::try_new(short).err(),
        Some(CryptoError::KeyFormat)
    );
    assert_eq!(
        process_sign(b"x", short, TextSignFormat::Blake3).unwrap_err(),
        CryptoError::KeyFormat
    );
    assert_eq!(
        process_sign(b"x", short, TextSignFormat::Ed25519).unwrap_err(),
        CryptoError::KeyFormat
    );
    assert_eq!(
        process_encrypt(b"x", short).unwrap_err(),
        CryptoError::KeyFormat
    );
    assert_eq!(
        process_decrypt("aGVsbG8", short).unwrap_err(),
        CryptoError::KeyFormat
    );

    // The keyed hash and the cipher keep the 32-byte prefix of longer
    // material; the asymmetric seed must be exactly 32 bytes.
    let long = b"0123456789012345678901234567890123456789";
    assert!(Blake3::try_new(long).is_ok());
    assert!(Chacha::try_new(long).is_ok());
    assert_eq!(
        Ed25519Signer::try_new(long).err(),
        Some(CryptoError::KeyFormat)
    );

    // A public key must also be a valid curve point: roughly half of all
    // 32-byte strings are not, and each of those is a key-format error.
    let mut rejected = 0;
    for b in 0..=255u8 {
        let mut candidate = [0u8; 32];
        candidate[0] = b;
        if let Err(e) = Ed25519Verifier::try_new(&candidate) {
            assert_eq!(e, CryptoError::KeyFormat);
            rejected += 1;
        }
    }
    assert!(rejected > 0);
}

#[test]
fn key_file_naming_convention() {
    assert_eq!(
        textcrypt::key_file_names(TextSignFormat::Blake3),
        vec!["blake3.txt"]
    );
    assert_eq!(
        textcrypt::key_file_names(TextSignFormat::Ed25519),
        vec!["ed25519.sk", "ed25519.pk"]
    );
}

#[test]
fn signature_and_ciphertext_text_carry_no_whitespace() {
    let sig_text = process_sign(b"hello world", HASH_KEY, TextSignFormat::Blake3).unwrap();
    assert_eq!(sig_text.trim(), sig_text);
    let encrypted = process_encrypt(b"hello!", HASH_KEY).unwrap();
    assert_eq!(encrypted.trim(), encrypted);
}

#[test]
fn generated_hash_key_uses_every_class() {
    let keys = process_gen_key(TextSignFormat::Blake3).unwrap();
    assert_eq!(keys.len(), 1);
    let key = &keys[0];
    assert_eq!(key.len(), 32);

    let symbols = b"!@#$%^&*_";
    let mut has_upper = false;
    let mut has_lower = false;
    let mut has_digit = false;
    let mut has_symbol = false;
    for &b in key {
        if b.is_ascii_uppercase() {
            has_upper = true;
        } else if b.is_ascii_lowercase() {
            has_lower = true;
        } else if b.is_ascii_digit() {
            has_digit = true;
        } else {
            assert!(symbols.contains(&b));
            has_symbol = true;
        }
    }
    assert!(has_upper && has_lower && has_digit && has_symbol);

    // The generated key is usable keyed-hash key material.
    assert!(Blake3::try_new(key).is_ok());
}
