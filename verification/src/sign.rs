//! The two signing families and the capability traits they implement.
//!
//! The keyed hash (BLAKE3) authenticates a message under one shared 32-byte
//! key; the asymmetric scheme (Ed25519) signs under a 32-byte private seed
//! and verifies under the matching 32-byte public key. Both work on whole
//! byte buffers: the caller resolves its byte source and hands the bytes in.

use vstd::prelude::*;

use crate::compare::{ct_bytes_eq, str_eq};
use crate::errors::CryptoError;
use crate::keygen::{generate_password_key, password_key_ok};
use crate::primitives::{
    blake3_keyed, blake3_keyed_hash, ed25519_check_public, ed25519_generate, ed25519_public_key,
    ed25519_sign, ed25519_signature, ed25519_valid_public, ed25519_verifies, ed25519_verify,
};
use vstd::slice::slice_to_vec;

verus! {

/// The algorithm tag vocabulary: exactly two recognized families.
#[derive(Clone, Copy, Debug, PartialEq, Eq, Structural)]
pub enum TextSignFormat {
    /// The keyed cryptographic hash.
    Blake3,
    /// The asymmetric signature scheme.
    Ed25519,
}

/// Resolves an algorithm tag. Exactly `blake3` and `ed25519` are
/// recognized; anything else is a configuration error, never a fallback.
pub fn parse_format(s: &str) -> (r: Result<TextSignFormat, CryptoError>)
    ensures
        r is Ok <==> (s@ == "blake3"@ || s@ == "ed25519"@),
        r matches Ok(f) ==> ((f == TextSignFormat::Blake3) <==> s@ == "blake3"@),
        r matches Ok(f) ==> ((f == TextSignFormat::Ed25519) <==> s@ == "ed25519"@),
        r is Err ==> r->Err_0 == CryptoError::UnsupportedFormat,
{
    proof {
        reveal_strlit("blake3");
        reveal_strlit("ed25519");
        assert("blake3"@.len() == 6);
        assert("ed25519"@.len() == 7);
    }
    if str_eq(s, "blake3") {
        Ok(TextSignFormat::Blake3)
    } else if str_eq(s, "ed25519") {
        Ok(TextSignFormat::Ed25519)
    } else {
        Err(CryptoError::UnsupportedFormat)
    }
}

/// Signing capability: produce a signature over a whole message.
pub trait TextSign {
    /// The signature this signer produces over `data`.
    spec fn sig_spec(&self, data: Seq<u8>) -> Seq<u8>;

    /// What else is promised of a produced signature.
    spec fn sig_valid(&self, data: Seq<u8>) -> bool;

    /// Sign the data with the held key.
    fn sign(&self, data: &[u8]) -> (sig: Vec<u8>)
        ensures
            sig@ == self.sig_spec(data@),
            self.sig_valid(data@),
    ;
}

/// Verification capability: state whether a signature matches a message.
/// A malformed signature is an ordinary `false`, never an error.
pub trait TextVerify {
    /// Which signatures this verifier accepts over `data`.
    spec fn accepts(&self, data: Seq<u8>, sig: Seq<u8>) -> bool;

    /// Verify the data against the supplied signature.
    fn verify(&self, data: &[u8], sig: &[u8]) -> (r: bool)
        ensures
            r == self.accepts(data@, sig@),
    ;
}

/// Key-loading capability: build a ready instance from raw key bytes.
/// Key material that does not fit the algorithm is a `KeyFormat` error.
pub trait KeyLoader: Sized {
    /// Which key bytes load successfully.
    spec fn loadable(key: Seq<u8>) -> bool;

    /// How a loaded instance relates to the bytes it was loaded from.
    spec fn keyed_by(&self, key: Seq<u8>) -> bool;

    /// Load the key from raw bytes read out of storage.
    fn load_key(key: &[u8]) -> (r: Result<Self, CryptoError>)
        ensures
            r is Ok <==> Self::loadable(key@),
            r matches Ok(t) ==> t.keyed_by(key@),
            r is Err ==> r->Err_0 == CryptoError::KeyFormat,
    ;
}

/// Key-generation capability: one element for a symmetric algorithm, two
/// (private, then public) for an asymmetric one.
pub trait KeyGenerator {
    /// What holds of a generated sequence of key material.
    spec fn generated_ok(keys: Seq<Seq<u8>>) -> bool;

    /// Generate fresh key material.
    fn generate() -> (r: Result<Vec<Vec<u8>>, CryptoError>)
        ensures
            r is Ok,
            r matches Ok(keys) ==> Self::generated_ok(keys.deep_view()),
    ;
}

/// The keyed-hash signer and verifier: one shared 32-byte key.
pub struct Blake3 {
    key: Vec<u8>,
}

impl Blake3 {
    #[verifier::type_invariant]
    spec fn wf(self) -> bool {
        self.key@.len() == 32
    }

    /// The 32 key bytes this instance holds.
    pub closed spec fn key_view(&self) -> Seq<u8> {
        self.key@
    }

    /// Wraps an exactly 32-byte key.
    pub fn new(key: Vec<u8>) -> (r: Self)
        requires
            key@.len() == 32,
        ensures
            r.key_view() == key@,
    {
        Blake3 { key }
    }

    /// Accepts any key material of at least 32 bytes and keeps its 32-byte
    /// prefix; shorter material is a `KeyFormat` error.
    pub fn try_new(key: &[u8]) -> (r: Result<Self, CryptoError>)
        ensures
            r is Ok <==> key@.len() >= 32,
            r matches Ok(s) ==> s.key_view() == key@.take(32),
            r is Err ==> r->Err_0 == CryptoError::KeyFormat,
    {
        if key.len() < 32 {
            return Err(CryptoError::KeyFormat);
        }
        let prefix = slice_to_vec(&key[0..32]);
        proof {
            assert(prefix@ =~= key@.take(32));
        }
        Ok(Blake3::new(prefix))
    }
}

impl TextSign for Blake3 {
    open spec fn sig_spec(&self, data: Seq<u8>) -> Seq<u8> {
        blake3_keyed(self.key_view(), data)
    }

    open spec fn sig_valid(&self, data: Seq<u8>) -> bool {
        blake3_keyed(self.key_view(), data).len() == 32
    }

    fn sign(&self, data: &[u8]) -> (sig: Vec<u8>) {
        proof {
            use_type_invariant(&*self);
        }
        blake3_keyed_hash(self.key.as_slice(), data)
    }
}

impl TextVerify for Blake3 {
    open spec fn accepts(&self, data: Seq<u8>, sig: Seq<u8>) -> bool {
        sig == blake3_keyed(self.key_view(), data)
    }

    fn verify(&self, data: &[u8], sig: &[u8]) -> (r: bool) {
        proof {
            use_type_invariant(&*self);
        }
        let digest = blake3_keyed_hash(self.key.as_slice(), data);
        ct_bytes_eq(digest.as_slice(), sig)
    }
}

/// Law: the keyed hash accepts exactly its own digest — any supplied
/// signature other than the digest of the data under the held key is
/// rejected. This covers a tampered signature outright, and a tampered
/// input exactly when its digest differs from the signed one (the
/// tamper-detection property's own collision caveat; that two inputs'
/// digests differ is the hash's collision resistance, which no contract
/// here states).
pub proof fn lemma_keyed_hash_mismatch_rejected(verifier: &Blake3, data: Seq<u8>, sig: Seq<u8>)
    requires
        sig != blake3_keyed(verifier.key_view(), data),
    ensures
        !verifier.accepts(data, sig),
{
}

impl KeyLoader for Blake3 {
    open spec fn loadable(key: Seq<u8>) -> bool {
        key.len() >= 32
    }

    open spec fn keyed_by(&self, key: Seq<u8>) -> bool {
        self.key_view() == key.take(32)
    }

    fn load_key(key: &[u8]) -> (r: Result<Self, CryptoError>) {
        Blake3::try_new(key)
    }
}

impl KeyGenerator for Blake3 {
    open spec fn generated_ok(keys: Seq<Seq<u8>>) -> bool {
        keys.len() == 1 && password_key_ok(keys[0])
    }

    fn generate() -> (r: Result<Vec<Vec<u8>>, CryptoError>) {
        let key = generate_password_key();
        let ghost key_bytes = key@;
        let mut out: Vec<Vec<u8>> = Vec::new();
        out.push(key);
        proof {
            assert(out@[0].deep_view() =~= key_bytes);
            assert(out.deep_view() =~= seq![key_bytes]);
        }
        Ok(out)
    }
}

/// The asymmetric signer: a 32-byte Ed25519 private seed.
pub struct Ed25519Signer {
    key: Vec<u8>,
}

impl Ed25519Signer {
    #[verifier::type_invariant]
    spec fn wf(self) -> bool {
        self.key@.len() == 32
    }

    /// The 32 signing-seed bytes this instance holds.
    pub closed spec fn key_view(&self) -> Seq<u8> {
        self.key@
    }

    /// Wraps an exactly 32-byte signing seed.
    pub fn new(key: Vec<u8>) -> (r: Self)
        requires
            key@.len() == 32,
        ensures
            r.key_view() == key@,
    {
        Ed25519Signer { key }
    }

    /// Accepts exactly 32 bytes of signing-seed material; anything else is
    /// a `KeyFormat` error.
    pub fn try_new(key: &[u8]) -> (r: Result<Self, CryptoError>)
        ensures
            r is Ok <==> key@.len() == 32,
            r matches Ok(s) ==> s.key_view() == key@,
            r is Err ==> r->Err_0 == CryptoError::KeyFormat,
    {
        if key.len() != 32 {
            return Err(CryptoError::KeyFormat);
        }
        Ok(Ed25519Signer::new(slice_to_vec(key)))
    }
}

impl TextSign for Ed25519Signer {
    open spec fn sig_spec(&self, data: Seq<u8>) -> Seq<u8> {
        ed25519_signature(self.key_view(), data)
    }

    /// The produced signature is 64 bytes and verifies under the matching
    /// public key: the asymmetric round trip.
    open spec fn sig_valid(&self, data: Seq<u8>) -> bool {
        &&& ed25519_signature(self.key_view(), data).len() == 64
        &&& ed25519_verifies(
            ed25519_public_key(self.key_view()),
            data,
            ed25519_signature(self.key_view(), data),
        )
    }

    fn sign(&self, data: &[u8]) -> (sig: Vec<u8>) {
        proof {
            use_type_invariant(&*self);
        }
        ed25519_sign(self.key.as_slice(), data)
    }
}

impl KeyLoader for Ed25519Signer {
    open spec fn loadable(key: Seq<u8>) -> bool {
        key.len() == 32
    }

    open spec fn keyed_by(&self, key: Seq<u8>) -> bool {
        self.key_view() == key
    }

    fn load_key(key: &[u8]) -> (r: Result<Self, CryptoError>) {
        Ed25519Signer::try_new(key)
    }
}

impl KeyGenerator for Ed25519Signer {
    open spec fn generated_ok(keys: Seq<Seq<u8>>) -> bool {
        &&& keys.len() == 2
        &&& keys[0].len() == 32
        &&& keys[1].len() == 32
        &&& keys[1] == ed25519_public_key(keys[0])
        &&& ed25519_valid_public(keys[1])
    }

    fn generate() -> (r: Result<Vec<Vec<u8>>, CryptoError>) {
        let pair = ed25519_generate();
        let ghost sk = pair.0@;
        let ghost pk = pair.1@;
        let mut out: Vec<Vec<u8>> = Vec::new();
        out.push(pair.0);
        out.push(pair.1);
        proof {
            assert(out@[0].deep_view() =~= sk);
            assert(out@[1].deep_view() =~= pk);
            assert(out.deep_view() =~= seq![sk, pk]);
        }
        Ok(out)
    }
}

/// The asymmetric verifier: a validated 32-byte Ed25519 public key.
pub struct Ed25519Verifier {
    key: Vec<u8>,
}

impl Ed25519Verifier {
    #[verifier::type_invariant]
    spec fn wf(self) -> bool {
        self.key@.len() == 32 && ed25519_valid_public(self.key@)
    }

    /// The 32 public-key bytes this instance holds.
    pub closed spec fn key_view(&self) -> Seq<u8> {
        self.key@
    }

    /// Wraps an exactly 32-byte, already validated public key.
    pub fn new(key: Vec<u8>) -> (r: Self)
        requires
            key@.len() == 32,
            ed25519_valid_public(key@),
        ensures
            r.key_view() == key@,
    {
        Ed25519Verifier { key }
    }

    /// Accepts exactly 32 bytes that decode to a valid curve point;
    /// anything else is a `KeyFormat` error.
    pub fn try_new(key: &[u8]) -> (r: Result<Self, CryptoError>)
        ensures
            r is Ok <==> (key@.len() == 32 && ed25519_valid_public(key@)),
            r matches Ok(v) ==> v.key_view() == key@,
            r is Err ==> r->Err_0 == CryptoError::KeyFormat,
    {
        if key.len() != 32 {
            return Err(CryptoError::KeyFormat);
        }
        if !ed25519_check_public(key) {
            return Err(CryptoError::KeyFormat);
        }
        Ok(Ed25519Verifier::new(slice_to_vec(key)))
    }
}

impl TextVerify for Ed25519Verifier {
    /// A signature is accepted exactly when it is 64 bytes long and passes
    /// Ed25519 verification; a wrong length is an ordinary mismatch.
    open spec fn accepts(&self, data: Seq<u8>, sig: Seq<u8>) -> bool {
        sig.len() == 64 && ed25519_verifies(self.key_view(), data, sig)
    }

    fn verify(&self, data: &[u8], sig: &[u8]) -> (r: bool) {
        proof {
            use_type_invariant(&*self);
        }
        if sig.len() != 64 {
            return false;
        }
        ed25519_verify(self.key.as_slice(), data, sig)
    }
}

impl KeyLoader for Ed25519Verifier {
    open spec fn loadable(key: Seq<u8>) -> bool {
        key.len() == 32 && ed25519_valid_public(key)
    }

    open spec fn keyed_by(&self, key: Seq<u8>) -> bool {
        self.key_view() == key
    }

    fn load_key(key: &[u8]) -> (r: Result<Self, CryptoError>) {
        Ed25519Verifier::try_new(key)
    }
}

} // verus!
