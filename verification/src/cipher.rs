//! The authenticated symmetric cipher: ChaCha20-Poly1305 under a 32-byte
//! key, with the ciphertext and its 16-byte tag carried as unpadded
//! URL-safe base64 text.
//!
//! The nonce is derived from the first 12 bytes of the key itself, to stay
//! byte-compatible with ciphertexts produced earlier under the same keys.
//! That derivation is unsafe as a general construction: a nonce must never
//! repeat under a fixed key, so encrypting two different plaintexts under
//! one key violates the cipher's uniqueness requirement. Callers who do not
//! need the compatibility should use a fresh key per message.

use vstd::prelude::*;

use crate::errors::CryptoError;
use crate::primitives::{
    b64_url, b64_url_decode, b64_url_encode, chacha_decrypt, chacha_encrypt, chacha_seal,
    MAX_PLAINTEXT_LEN,
};
use crate::trimming::{lemma_trim_no_space, trim_spec};
use vstd::slice::slice_to_vec;

verus! {

/// The nonce the cipher derives from a 32-byte key: its first 12 bytes.
pub open spec fn nonce_of(key: Seq<u8>) -> Seq<u8> {
    key.take(12)
}

/// The base64url text that encrypting `pt` under `key` produces.
pub open spec fn sealed_text(key: Seq<u8>, pt: Seq<u8>) -> Seq<char> {
    b64_url(chacha_seal(key, nonce_of(key), pt))
}

/// The authenticated cipher, holding a 32-byte key and the 12-byte nonce
/// derived from it.
pub struct Chacha {
    key: Vec<u8>,
    nonce: Vec<u8>,
}

impl Chacha {
    #[verifier::type_invariant]
    spec fn wf(self) -> bool {
        self.key@.len() == 32 && self.nonce@ == nonce_of(self.key@)
    }

    /// The 32 key bytes this cipher holds.
    pub closed spec fn key_view(&self) -> Seq<u8> {
        self.key@
    }

    /// Wraps an exactly 32-byte key and derives the nonce from it.
    pub fn new(key: Vec<u8>) -> (r: Self)
        requires
            key@.len() == 32,
        ensures
            r.key_view() == key@,
    {
        let nonce = slice_to_vec(&key[0..12]);
        proof {
            assert(nonce@ =~= nonce_of(key@));
        }
        Chacha { key, nonce }
    }

    /// Accepts any key material of at least 32 bytes and keeps its 32-byte
    /// prefix; shorter material is a `KeyFormat` error.
    pub fn try_new(key: &[u8]) -> (r: Result<Self, CryptoError>)
        ensures
            r is Ok <==> key@.len() >= 32,
            r matches Ok(c) ==> c.key_view() == key@.take(32),
            r is Err ==> r->Err_0 == CryptoError::KeyFormat,
    {
        if key.len() < 32 {
            return Err(CryptoError::KeyFormat);
        }
        let prefix = slice_to_vec(&key[0..32]);
        proof {
            assert(prefix@ =~= key@.take(32));
        }
        Ok(Chacha::new(prefix))
    }

    /// Seals the plaintext under the held key and derived nonce and
    /// returns the base64url text of ciphertext plus tag. The text holds
    /// no surrounding whitespace: it is its own trim.
    pub fn encrypt(&self, pt: &[u8]) -> (r: String)
        requires
            pt@.len() < MAX_PLAINTEXT_LEN,
        ensures
            r@ == sealed_text(self.key_view(), pt@),
            trim_spec(r@) == r@,
    {
        proof {
            use_type_invariant(&*self);
        }
        let sealed = chacha_encrypt(self.key.as_slice(), self.nonce.as_slice(), pt);
        let text = b64_url_encode(sealed.as_slice());
        proof {
            lemma_trim_no_space(text@);
        }
        text
    }

    /// Decodes the base64url text and opens the authenticated ciphertext.
    /// Exactly the texts that `encrypt` produces under the same key come
    /// back as their plaintext; text that is no base64url is an `Encoding`
    /// error, and a failed tag check — tampering or a wrong key — is a
    /// `TagMismatch` error, never silently wrong plaintext.
    pub fn decrypt(&self, text: &str) -> (r: Result<Vec<u8>, CryptoError>)
        ensures
            r matches Ok(p) ==> text@ == sealed_text(self.key_view(), p@),
            forall|p: Seq<u8>|
                p.len() < MAX_PLAINTEXT_LEN && text@ == sealed_text(self.key_view(), p)
                    ==> r is Ok && r->Ok_0@ == p,
            r is Err ==> (r->Err_0 == CryptoError::Encoding || r->Err_0
                == CryptoError::TagMismatch),
            (r is Err && r->Err_0 == CryptoError::Encoding) <==> !(exists|b: Seq<u8>|
                text@ == b64_url(b)),
    {
        proof {
            use_type_invariant(&*self);
        }
        let sealed = match b64_url_decode(text) {
            Ok(b) => b,
            Err(e) => {
                return Err(e);
            },
        };
        chacha_decrypt(self.key.as_slice(), self.nonce.as_slice(), sealed.as_slice())
    }
}

} // verus!
