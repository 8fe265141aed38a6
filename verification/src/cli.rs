//! The validated request model of the command-line surface.
//!
//! The shell around the library parses arguments, probes the filesystem and
//! performs the I/O; these types and checks hold the decisions: which value
//! counts as a readable input reference, which as a usable output
//! directory, and which algorithm tag is recognized. The input marker `-`
//! denotes standard input and is always accepted; any other reference must
//! name an existing file, whose existence the shell reports.

use vstd::prelude::*;

use crate::b64::Base64Format;
use crate::compare::str_eq;
use crate::errors::CryptoError;
use crate::sign::TextSignFormat;

verus! {

/// Accepts an input reference: `-` for standard input, or any name the
/// shell found to exist. `exists` is the shell's answer for `filename`.
pub fn verify_file(filename: &str, exists: bool) -> (r: Result<String, &'static str>)
    ensures
        r is Ok <==> (filename@ == "-"@ || exists),
        r matches Ok(s) ==> s@ == filename@,
        r is Err ==> r->Err_0@ == "file not exist"@,
{
    if str_eq(filename, "-") || exists {
        Ok(filename.to_owned())
    } else {
        Err("file not exist")
    }
}

/// Accepts an output directory: the shell reports whether `path` exists
/// and whether it is a directory, and only an existing directory passes.
pub fn verify_path(path: &str, exists: bool, is_dir: bool) -> (r: Result<String, &'static str>)
    ensures
        r is Ok <==> (exists && is_dir),
        r matches Ok(s) ==> s@ == path@,
        r is Err ==> r->Err_0@ == "path not exist"@,
{
    if exists && is_dir {
        Ok(path.to_owned())
    } else {
        Err("path not exist")
    }
}

/// Resolves a base64 format tag. Exactly `standard` and `urlsafe` are
/// recognized.
pub fn parse_base64_format(s: &str) -> (r: Result<Base64Format, CryptoError>)
    ensures
        r is Ok <==> (s@ == "standard"@ || s@ == "urlsafe"@),
        r matches Ok(f) ==> ((f == Base64Format::Standard) <==> s@ == "standard"@),
        r matches Ok(f) ==> ((f == Base64Format::UrlSafe) <==> s@ == "urlsafe"@),
        r is Err ==> r->Err_0 == CryptoError::UnsupportedFormat,
{
    proof {
        reveal_strlit("standard");
        reveal_strlit("urlsafe");
        assert("standard"@.len() == 8);
        assert("urlsafe"@.len() == 7);
    }
    if str_eq(s, "standard") {
        Ok(Base64Format::Standard)
    } else if str_eq(s, "urlsafe") {
        Ok(Base64Format::UrlSafe)
    } else {
        Err(CryptoError::UnsupportedFormat)
    }
}

/// A request to base64-encode the referenced input.
#[derive(Clone, Debug)]
pub struct Base64EncodeOpts {
    /// Input reference: `-` or a file name.
    pub input: String,
    /// Which alphabet to encode with.
    pub format: Base64Format,
}

/// A request to base64-decode the referenced input.
#[derive(Clone, Debug)]
pub struct Base64DecodeOpts {
    /// Input reference: `-` or a file name.
    pub input: String,
    /// Which alphabet to decode with.
    pub format: Base64Format,
}

/// The base64 subcommands.
#[derive(Clone, Debug)]
pub enum Base64SubCommand {
    /// Encode the input.
    Encode(Base64EncodeOpts),
    /// Decode the input.
    Decode(Base64DecodeOpts),
}

/// A request to sign the referenced input under a key file.
#[derive(Clone, Debug)]
pub struct TextSignOpts {
    /// Input reference: `-` or a file name.
    pub input: String,
    /// Path of the key file.
    pub key: String,
    /// Which algorithm family signs.
    pub format: TextSignFormat,
}

/// A request to verify a signature over the referenced input.
#[derive(Clone, Debug)]
pub struct TextVerifyOpts {
    /// Input reference: `-` or a file name.
    pub input: String,
    /// Path of the key file.
    pub key: String,
    /// Which algorithm family verifies.
    pub format: TextSignFormat,
    /// The base64url signature text.
    pub sig: String,
}

/// A request to generate key material into an output directory.
#[derive(Clone, Debug)]
pub struct TextKeyGenerateOpts {
    /// Which algorithm family to generate for.
    pub format: TextSignFormat,
    /// The directory the key files go into.
    pub output: String,
}

/// A request to encrypt the referenced input under a key string.
#[derive(Clone, Debug)]
pub struct TextEncryptOpts {
    /// Input reference: `-` or a file name.
    pub input: String,
    /// The cipher key text.
    pub key: String,
}

/// A request to decrypt the referenced input under a key string.
#[derive(Clone, Debug)]
pub struct TextDecryptOpts {
    /// Input reference: `-` or a file name.
    pub input: String,
    /// The cipher key text.
    pub key: String,
}

/// The text subcommands.
#[derive(Clone, Debug)]
pub enum TextSubCommand {
    /// Sign text.
    Sign(TextSignOpts),
    /// Verify text.
    Verify(TextVerifyOpts),
    /// Generate key material.
    Generate(TextKeyGenerateOpts),
    /// Encrypt text.
    Encrypt(TextEncryptOpts),
    /// Decrypt text.
    Decrypt(TextDecryptOpts),
}

} // verus!
