use vstd::prelude::*;

verus! {

/// The failure taxonomy of the toolkit.
///
/// A `verify` call that answers "no match" is not an error: the absence of a
/// match is data, so it travels as `Ok(false)`, never as a variant here.
#[derive(Clone, Copy, Debug, PartialEq, Eq, Structural)]
pub enum CryptoError {
    /// Key material shorter than the algorithm requires, or structurally
    /// invalid (a public key that is no valid curve point).
    KeyFormat,
    /// A text-boundary value is not valid base64.
    Encoding,
    /// Authenticated decryption failed: the tag does not match, which
    /// signals tampering or a wrong key.
    TagMismatch,
    /// An algorithm tag outside the recognized vocabulary.
    UnsupportedFormat,
    /// Decrypted bytes do not form valid UTF-8 text.
    NotText,
}

} // verus!
