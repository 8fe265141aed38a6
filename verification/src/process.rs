//! The process-level entry points: sign, verify, generate key material,
//! encrypt, decrypt.
//!
//! Each call is a pure function of the bytes handed in: the caller resolves
//! its byte source and key storage and passes plain buffers. Binary outputs
//! cross the boundary as unpadded URL-safe base64 text; textual signature
//! and ciphertext inputs are decoded from the same alphabet first.

use vstd::prelude::*;

use crate::cipher::{sealed_text, Chacha};
use crate::errors::CryptoError;
use crate::primitives::{
    b64_url, b64_url_encode, blake3_keyed, ed25519_public_key, ed25519_signature,
    ed25519_valid_public, ed25519_verifies, utf8_string, MAX_PLAINTEXT_LEN,
};
use crate::sign::{
    Blake3, Ed25519Signer, Ed25519Verifier, KeyGenerator, KeyLoader, TextSign, TextSignFormat,
    TextVerify,
};
use crate::trimming::{lemma_trim_no_space, trim_spec, trim_text};
use vstd::utf8::{decode_utf8, valid_utf8};

verus! {

/// Which key material the signing side of each family accepts: the keyed
/// hash keeps the 32-byte prefix of anything long enough, the asymmetric
/// seed must be exactly 32 bytes.
pub open spec fn sign_key_ok(format: TextSignFormat, key: Seq<u8>) -> bool {
    match format {
        TextSignFormat::Blake3 => key.len() >= 32,
        TextSignFormat::Ed25519 => key.len() == 32,
    }
}

/// Which key material the verifying side of each family accepts.
pub open spec fn verify_key_ok(format: TextSignFormat, key: Seq<u8>) -> bool {
    match format {
        TextSignFormat::Blake3 => key.len() >= 32,
        TextSignFormat::Ed25519 => key.len() == 32 && ed25519_valid_public(key),
    }
}

/// The signature text that signing `data` under `key` produces.
pub open spec fn signature_text(format: TextSignFormat, key: Seq<u8>, data: Seq<u8>) -> Seq<
    char,
> {
    match format {
        TextSignFormat::Blake3 => b64_url(blake3_keyed(key.take(32), data)),
        TextSignFormat::Ed25519 => b64_url(ed25519_signature(key, data)),
    }
}

/// Which signature texts verification under `key` accepts over `data`.
pub open spec fn accepted_signature(
    format: TextSignFormat,
    key: Seq<u8>,
    data: Seq<u8>,
    sig: Seq<char>,
) -> bool {
    match format {
        TextSignFormat::Blake3 => sig == b64_url(blake3_keyed(key.take(32), data)),
        TextSignFormat::Ed25519 => exists|b: Seq<u8>|
            sig == b64_url(b) && b.len() == 64 && ed25519_verifies(key, data, b),
    }
}

/// What holds of key material generated for each family.
pub open spec fn generated_keys_ok(format: TextSignFormat, keys: Seq<Seq<u8>>) -> bool {
    match format {
        TextSignFormat::Blake3 => <Blake3 as KeyGenerator>::generated_ok(keys),
        TextSignFormat::Ed25519 => <Ed25519Signer as KeyGenerator>::generated_ok(keys),
    }
}

/// Signs `data` under the raw key material `key` with the chosen family
/// and returns the signature as base64url text, which holds no
/// surrounding whitespace (it is its own trim, so verification accepts it
/// back unchanged). For the asymmetric family the produced text also
/// verifies under the matching public key: the asymmetric round trip.
pub fn process_sign(data: &[u8], key: &[u8], format: TextSignFormat) -> (r: Result<
    String,
    CryptoError,
>)
    ensures
        r is Ok <==> sign_key_ok(format, key@),
        r matches Ok(s) ==> s@ == signature_text(format, key@, data@),
        r matches Ok(s) ==> trim_spec(s@) == s@,
        r is Ok && format == TextSignFormat::Blake3 ==> accepted_signature(
            format,
            key@,
            data@,
            r->Ok_0@,
        ),
        r is Ok && format == TextSignFormat::Ed25519 ==> accepted_signature(
            format,
            ed25519_public_key(key@),
            data@,
            r->Ok_0@,
        ),
        r is Err ==> r->Err_0 == CryptoError::KeyFormat,
{
    match format {
        TextSignFormat::Blake3 => {
            let signer = match Blake3::try_new(key) {
                Ok(s) => s,
                Err(e) => {
                    return Err(e);
                },
            };
            let sig = signer.sign(data);
            let text = b64_url_encode(sig.as_slice());
            proof {
                lemma_trim_no_space(text@);
            }
            Ok(text)
        },
        TextSignFormat::Ed25519 => {
            let signer = match Ed25519Signer::try_new(key) {
                Ok(s) => s,
                Err(e) => {
                    return Err(e);
                },
            };
            let sig = signer.sign(data);
            let text = b64_url_encode(sig.as_slice());
            proof {
                lemma_trim_no_space(text@);
            }
            Ok(text)
        },
    }
}

/// Verifies the base64url signature text `sig` over `data` under the raw
/// key material `key`; surrounding whitespace on the signature text is
/// stripped first. Text that is no base64url is an `Encoding` error;
/// unusable key material is a `KeyFormat` error; otherwise the verdict
/// comes back as an ordinary boolean, with `false` for any signature that
/// does not match — a mismatch is not a failure.
pub fn process_verify(data: &[u8], key: &[u8], format: TextSignFormat, sig: &str) -> (r: Result<
    bool,
    CryptoError,
>)
    ensures
        r is Ok <==> ((exists|b: Seq<u8>| trim_spec(sig@) == b64_url(b)) && verify_key_ok(
            format,
            key@,
        )),
        r matches Ok(v) ==> (v <==> accepted_signature(format, key@, data@, trim_spec(sig@))),
        !(exists|b: Seq<u8>| trim_spec(sig@) == b64_url(b)) ==> r is Err && r->Err_0
            == CryptoError::Encoding,
        (exists|b: Seq<u8>| trim_spec(sig@) == b64_url(b)) && !verify_key_ok(format, key@) ==> r
            is Err && r->Err_0 == CryptoError::KeyFormat,
{
    let sig_bytes = match crate::primitives::b64_url_decode(trim_text(sig)) {
        Ok(b) => b,
        Err(e) => {
            return Err(e);
        },
    };
    match format {
        TextSignFormat::Blake3 => {
            let verifier = match Blake3::try_new(key) {
                Ok(v) => v,
                Err(e) => {
                    return Err(e);
                },
            };
            Ok(verifier.verify(data, sig_bytes.as_slice()))
        },
        TextSignFormat::Ed25519 => {
            let verifier = match Ed25519Verifier::try_new(key) {
                Ok(v) => v,
                Err(e) => {
                    return Err(e);
                },
            };
            Ok(verifier.verify(data, sig_bytes.as_slice()))
        },
    }
}

/// Generates fresh key material for the chosen family: one element for the
/// keyed hash, two (private, then public) for the asymmetric scheme.
pub fn process_gen_key(format: TextSignFormat) -> (r: Result<Vec<Vec<u8>>, CryptoError>)
    ensures
        r is Ok,
        r matches Ok(keys) ==> generated_keys_ok(format, keys.deep_view()),
{
    match format {
        TextSignFormat::Blake3 => Blake3::generate(),
        TextSignFormat::Ed25519 => Ed25519Signer::generate(),
    }
}

/// The fixed file-name convention for generated key material, one name
/// per generated element in the order `process_gen_key` returns them:
/// one file for the keyed hash, and for the asymmetric scheme the private
/// seed before the public key.
pub fn key_file_names(format: TextSignFormat) -> (r: Vec<&'static str>)
    ensures
        format == TextSignFormat::Blake3 ==> r@.len() == 1 && r@[0]@ == "blake3.txt"@,
        format == TextSignFormat::Ed25519 ==> r@.len() == 2 && r@[0]@ == "ed25519.sk"@ && r@[1]@
            == "ed25519.pk"@,
{
    let mut names: Vec<&'static str> = Vec::new();
    match format {
        TextSignFormat::Blake3 => {
            names.push("blake3.txt");
        },
        TextSignFormat::Ed25519 => {
            names.push("ed25519.sk");
            names.push("ed25519.pk");
        },
    }
    names
}

/// Encrypts `data` under the key material `key` (32-byte prefix kept,
/// shorter material rejected) and returns base64url ciphertext-plus-tag,
/// which holds no surrounding whitespace (it is its own trim, so
/// decryption accepts it back unchanged).
pub fn process_encrypt(data: &[u8], key: &[u8]) -> (r: Result<String, CryptoError>)
    requires
        data@.len() < MAX_PLAINTEXT_LEN,
    ensures
        r is Ok <==> key@.len() >= 32,
        r matches Ok(s) ==> s@ == sealed_text(key@.take(32), data@),
        r matches Ok(s) ==> trim_spec(s@) == s@,
        r is Err ==> r->Err_0 == CryptoError::KeyFormat,
{
    let cipher = match Chacha::try_new(key) {
        Ok(c) => c,
        Err(e) => {
            return Err(e);
        },
    };
    Ok(cipher.encrypt(data))
}

/// Decrypts base64url ciphertext text produced by `process_encrypt` under
/// the same key material and returns the plaintext as text; surrounding
/// whitespace on the ciphertext text is stripped first. Exactly the texts
/// sealed under this key whose plaintext is valid UTF-8 come back;
/// everything else fails with the matching error: short key material is
/// `KeyFormat`, text that is no base64url is `Encoding`, a failed tag
/// check is `TagMismatch`, and a plaintext that is no UTF-8 is `NotText`.
pub fn process_decrypt(data: &str, key: &[u8]) -> (r: Result<String, CryptoError>)
    ensures
        key@.len() < 32 ==> r is Err && r->Err_0 == CryptoError::KeyFormat,
        r matches Ok(s) ==> key@.len() >= 32 && (exists|p: Seq<u8>|
            trim_spec(data@) == sealed_text(key@.take(32), p) && valid_utf8(p) && s@
                == decode_utf8(p)),
        forall|p: Seq<u8>|
            key@.len() >= 32 && p.len() < MAX_PLAINTEXT_LEN && trim_spec(data@) == sealed_text(
                key@.take(32),
                p,
            ) && valid_utf8(p) ==> r is Ok && r->Ok_0@ == decode_utf8(p),
        key@.len() >= 32 && !(exists|b: Seq<u8>| trim_spec(data@) == b64_url(b)) ==> r is Err
            && r->Err_0 == CryptoError::Encoding,
        key@.len() >= 32 && (exists|b: Seq<u8>| trim_spec(data@) == b64_url(b)) && !(exists|
            p: Seq<u8>| trim_spec(data@) == sealed_text(key@.take(32), p)) ==> r is Err
            && r->Err_0 == CryptoError::TagMismatch,
        forall|p: Seq<u8>|
            key@.len() >= 32 && p.len() < MAX_PLAINTEXT_LEN && trim_spec(data@) == sealed_text(
                key@.take(32),
                p,
            ) && !valid_utf8(p) ==> r is Err && r->Err_0 == CryptoError::NotText,
        r is Err ==> (r->Err_0 == CryptoError::KeyFormat || r->Err_0 == CryptoError::Encoding
            || r->Err_0 == CryptoError::TagMismatch || r->Err_0 == CryptoError::NotText),
{
    let cipher = match Chacha::try_new(key) {
        Ok(c) => c,
        Err(e) => {
            return Err(e);
        },
    };
    let plain = match cipher.decrypt(trim_text(data)) {
        Ok(p) => p,
        Err(e) => {
            return Err(e);
        },
    };
    utf8_string(plain)
}

/// Law: for any sufficient keyed-hash key and any input, the signature
/// text that signing produces is accepted by verification under the same
/// key — the keyed-hash round trip.
pub proof fn lemma_keyed_hash_round_trip(key: Seq<u8>, data: Seq<u8>)
    requires
        key.len() >= 32,
    ensures
        accepted_signature(
            TextSignFormat::Blake3,
            key,
            data,
            signature_text(TextSignFormat::Blake3, key, data),
        ),
{
}

/// Law: under the keyed hash, exactly one signature text is accepted for a
/// given key and input — any other text, a tampered digest among them, is
/// rejected. (That a tampered *input* changes the digest itself rests on
/// the hash's collision resistance, which no contract here states.)
pub proof fn lemma_keyed_hash_unique_signature(key: Seq<u8>, data: Seq<u8>, sig: Seq<char>)
    requires
        sig != signature_text(TextSignFormat::Blake3, key, data),
    ensures
        !accepted_signature(TextSignFormat::Blake3, key, data, sig),
{
}

/// Law: key material shorter than 32 bytes is rejected by every algorithm
/// family — by both loaders of the asymmetric scheme, by the keyed hash,
/// and by both sides of the process façade — always as a key-format
/// failure, never a panic or silent padding.
pub proof fn lemma_short_key_rejected(key: Seq<u8>)
    requires
        key.len() < 32,
    ensures
        !<Blake3 as KeyLoader>::loadable(key),
        !<Ed25519Signer as KeyLoader>::loadable(key),
        !<Ed25519Verifier as KeyLoader>::loadable(key),
        !sign_key_ok(TextSignFormat::Blake3, key),
        !sign_key_ok(TextSignFormat::Ed25519, key),
        !verify_key_ok(TextSignFormat::Blake3, key),
        !verify_key_ok(TextSignFormat::Ed25519, key),
{
}

} // verus!
