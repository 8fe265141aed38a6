//! The trusted boundary of the library.
//!
//! Every call into an outside cryptographic or encoding crate goes through
//! exactly one wrapper in this module. Each wrapper is `external_body`: Verus
//! believes its contract and never reads its body. A result that would take
//! pages to state — a digest, a signature, a sealed ciphertext, a base64
//! text — is given a name instead: a spec function without a body, applied
//! only in the contracts of the wrappers below.

use vstd::prelude::*;

use crate::errors::CryptoError;
use base64::engine::general_purpose::{STANDARD, URL_SAFE_NO_PAD};
use base64::Engine;
use chacha20poly1305::aead::{Aead, KeyInit};
use chacha20poly1305::ChaCha20Poly1305;
use ed25519_dalek::{Signature, Signer, SigningKey, Verifier, VerifyingKey};
use crate::trimming::is_text_space;
use rand::seq::SliceRandom;
use rand::Rng;
use vstd::utf8::{decode_utf8, valid_utf8};

verus! {

/// The longest plaintext the authenticated cipher accepts: one byte short of
/// its 64-byte-block counter limit.
pub const MAX_PLAINTEXT_LEN: u64 = 0x3f_ffff_ffc0;

/// The BLAKE3 keyed hash of `data` under a 32-byte `key`.
pub uninterp spec fn blake3_keyed(key: Seq<u8>, data: Seq<u8>) -> Seq<u8>;

/// The Ed25519 signature over `msg` under the 32-byte signing key `sk`
/// (the scheme is deterministic: same key and message, same signature).
pub uninterp spec fn ed25519_signature(sk: Seq<u8>, msg: Seq<u8>) -> Seq<u8>;

/// The 32-byte Ed25519 verifying key derived from the signing key `sk`.
pub uninterp spec fn ed25519_public_key(sk: Seq<u8>) -> Seq<u8>;

/// Whether the 32 bytes `pk` decode to a valid Ed25519 verifying key.
pub uninterp spec fn ed25519_valid_public(pk: Seq<u8>) -> bool;

/// Whether Ed25519 verification of `sig` over `msg` under `pk` succeeds.
pub uninterp spec fn ed25519_verifies(pk: Seq<u8>, msg: Seq<u8>, sig: Seq<u8>) -> bool;

/// The ChaCha20-Poly1305 sealing of `pt` under `key` and `nonce`:
/// the ciphertext with the 16-byte authentication tag appended.
pub uninterp spec fn chacha_seal(key: Seq<u8>, nonce: Seq<u8>, pt: Seq<u8>) -> Seq<u8>;

/// The padded standard-alphabet base64 text of `data`.
pub uninterp spec fn b64_standard(data: Seq<u8>) -> Seq<char>;

/// The unpadded URL-safe base64 text of `data`.
pub uninterp spec fn b64_url(data: Seq<u8>) -> Seq<char>;

/// Relies on `blake3::keyed_hash`: a deterministic 32-byte digest of the
/// whole input under a 32-byte key.
#[verifier::external_body]
pub(crate) fn blake3_keyed_hash(key: &[u8], data: &[u8]) -> (r: Vec<u8>)
    requires
        key@.len() == 32,
    ensures
        r@ == blake3_keyed(key@, data@),
        r@.len() == 32,
{
    let k: &[u8; 32] = key.try_into().unwrap();
    blake3::keyed_hash(k, data).as_bytes().to_vec()
}

/// Relies on `ed25519_dalek::SigningKey::generate` with the operating
/// system's randomness, and on `SigningKey::verifying_key`: the pair comes
/// back as (signing, verifying) raw bytes, 32 each, and the verifying half
/// is the valid public counterpart of the signing half.
#[verifier::external_body]
pub(crate) fn ed25519_generate() -> (r: (Vec<u8>, Vec<u8>))
    ensures
        r.0@.len() == 32,
        r.1@ == ed25519_public_key(r.0@),
        r.1@.len() == 32,
        ed25519_valid_public(r.1@),
{
    let mut csprng = rand::rngs::OsRng;
    let sk = SigningKey::generate(&mut csprng);
    let vk = sk.verifying_key();
    (sk.to_bytes().to_vec(), vk.to_bytes().to_vec())
}

/// Relies on `ed25519_dalek::SigningKey::sign`: a deterministic 64-byte
/// signature that verifies under the matching verifying key.
#[verifier::external_body]
pub(crate) fn ed25519_sign(sk: &[u8], msg: &[u8]) -> (r: Vec<u8>)
    requires
        sk@.len() == 32,
    ensures
        r@ == ed25519_signature(sk@, msg@),
        r@.len() == 64,
        ed25519_verifies(ed25519_public_key(sk@), msg@, r@),
{
    let k: &[u8; 32] = sk.try_into().unwrap();
    SigningKey::from_bytes(k).sign(msg).to_vec()
}

/// Relies on `ed25519_dalek::VerifyingKey::from_bytes`: it succeeds exactly
/// when the 32 bytes decompress to a point on the curve.
#[verifier::external_body]
pub(crate) fn ed25519_check_public(pk: &[u8]) -> (r: bool)
    requires
        pk@.len() == 32,
    ensures
        r == ed25519_valid_public(pk@),
{
    let k: &[u8; 32] = pk.try_into().unwrap();
    VerifyingKey::from_bytes(k).is_ok()
}

/// Relies on `ed25519_dalek::VerifyingKey::verify`: a deterministic check of
/// a 64-byte signature over the message under a valid verifying key.
#[verifier::external_body]
pub(crate) fn ed25519_verify(pk: &[u8], msg: &[u8], sig: &[u8]) -> (r: bool)
    requires
        pk@.len() == 32,
        ed25519_valid_public(pk@),
        sig@.len() == 64,
    ensures
        r == ed25519_verifies(pk@, msg@, sig@),
{
    let k: &[u8; 32] = pk.try_into().unwrap();
    let vk = VerifyingKey::from_bytes(k).unwrap();
    let s: &[u8; 64] = sig.try_into().unwrap();
    vk.verify(msg, &Signature::from_bytes(s)).is_ok()
}

/// Relies on `chacha20poly1305::ChaCha20Poly1305::encrypt`: the ciphertext
/// of `pt` with the 16-byte tag appended, under a 32-byte key and a 12-byte
/// nonce; it never fails below the cipher's block-counter limit.
#[verifier::external_body]
pub(crate) fn chacha_encrypt(key: &[u8], nonce: &[u8], pt: &[u8]) -> (r: Vec<u8>)
    requires
        key@.len() == 32,
        nonce@.len() == 12,
        pt@.len() < MAX_PLAINTEXT_LEN,
    ensures
        r@ == chacha_seal(key@, nonce@, pt@),
        r@.len() == pt@.len() + 16,
{
    let cipher = ChaCha20Poly1305::new_from_slice(key).unwrap();
    let n = chacha20poly1305::Nonce::from_slice(nonce);
    cipher.encrypt(n, pt).unwrap()
}

/// Relies on `chacha20poly1305::ChaCha20Poly1305::decrypt`: it opens exactly
/// the byte strings that sealing under the same key and nonce produces, and
/// hands back the plaintext that was sealed; every other input fails the
/// tag check.
#[verifier::external_body]
pub(crate) fn chacha_decrypt(key: &[u8], nonce: &[u8], ct: &[u8]) -> (r: Result<
    Vec<u8>,
    CryptoError,
>)
    requires
        key@.len() == 32,
        nonce@.len() == 12,
    ensures
        r matches Ok(p) ==> ct@ == chacha_seal(key@, nonce@, p@),
        forall|p: Seq<u8>|
            p.len() < MAX_PLAINTEXT_LEN && ct@ == chacha_seal(key@, nonce@, p) ==> r is Ok
                && r->Ok_0@ == p,
        r is Err ==> r->Err_0 == CryptoError::TagMismatch,
{
    let cipher = ChaCha20Poly1305::new_from_slice(key).unwrap();
    let n = chacha20poly1305::Nonce::from_slice(nonce);
    match cipher.decrypt(n, ct) {
        Ok(p) => Ok(p),
        Err(_) => Err(CryptoError::TagMismatch),
    }
}

/// Relies on `base64::engine::general_purpose::STANDARD.encode`: padded
/// standard-alphabet base64, whose alphabet and padding character hold no
/// white-space character.
#[verifier::external_body]
pub(crate) fn b64_standard_encode(data: &[u8]) -> (r: String)
    ensures
        r@ == b64_standard(data@),
        forall|i: int| 0 <= i < r@.len() ==> !is_text_space(#[trigger] r@[i]),
{
    STANDARD.encode(data)
}

/// Relies on `base64::engine::general_purpose::STANDARD.decode`: it accepts
/// exactly the canonical padded encodings (the engine rejects missing or
/// excess padding and set trailing bits) and inverts the encoding.
#[verifier::external_body]
pub(crate) fn b64_standard_decode(text: &str) -> (r: Result<Vec<u8>, CryptoError>)
    ensures
        r matches Ok(b) ==> text@ == b64_standard(b@),
        forall|b: Seq<u8>| text@ == b64_standard(b) ==> r is Ok && r->Ok_0@ == b,
        r is Err ==> r->Err_0 == CryptoError::Encoding,
{
    match STANDARD.decode(text) {
        Ok(v) => Ok(v),
        Err(_) => Err(CryptoError::Encoding),
    }
}

/// Relies on `base64::engine::general_purpose::URL_SAFE_NO_PAD.encode`:
/// unpadded URL-safe base64, whose alphabet holds no white-space
/// character.
#[verifier::external_body]
pub(crate) fn b64_url_encode(data: &[u8]) -> (r: String)
    ensures
        r@ == b64_url(data@),
        forall|i: int| 0 <= i < r@.len() ==> !is_text_space(#[trigger] r@[i]),
{
    URL_SAFE_NO_PAD.encode(data)
}

/// Relies on `base64::engine::general_purpose::URL_SAFE_NO_PAD.decode`: it
/// accepts exactly the canonical unpadded encodings (the engine rejects
/// padding and set trailing bits) and inverts the encoding.
#[verifier::external_body]
pub(crate) fn b64_url_decode(text: &str) -> (r: Result<Vec<u8>, CryptoError>)
    ensures
        r matches Ok(b) ==> text@ == b64_url(b@),
        forall|b: Seq<u8>| text@ == b64_url(b) ==> r is Ok && r->Ok_0@ == b,
        r is Err ==> r->Err_0 == CryptoError::Encoding,
{
    match URL_SAFE_NO_PAD.decode(text) {
        Ok(v) => Ok(v),
        Err(_) => Err(CryptoError::Encoding),
    }
}

/// Relies on `String::from_utf8`: it succeeds exactly on valid UTF-8 and
/// decodes those bytes to their character sequence.
#[verifier::external_body]
pub(crate) fn utf8_string(bytes: Vec<u8>) -> (r: Result<String, CryptoError>)
    ensures
        r is Ok <==> valid_utf8(bytes@),
        r matches Ok(s) ==> s@ == decode_utf8(bytes@),
        r is Err ==> r->Err_0 == CryptoError::NotText,
{
    match String::from_utf8(bytes) {
        Ok(s) => Ok(s),
        Err(_) => Err(CryptoError::NotText),
    }
}

/// Relies on `rand::Rng::gen_range` over the thread's cryptographic
/// generator: some index below `n`; nothing more is promised of a random
/// draw.
#[verifier::external_body]
pub(crate) fn random_index(n: usize) -> (r: usize)
    requires
        n > 0,
    ensures
        r < n,
{
    rand::thread_rng().gen_range(0..n)
}

/// Relies on `rand::seq::SliceRandom::shuffle`: a random permutation, so the
/// bytes are rearranged but none is added or dropped.
#[verifier::external_body]
pub(crate) fn shuffle_bytes(v: &mut Vec<u8>)
    ensures
        final (v)@.len() == old(v)@.len(),
        final (v)@.to_multiset() == old(v)@.to_multiset(),
{
    v.as_mut_slice().shuffle(&mut rand::thread_rng());
}

} // verus!
