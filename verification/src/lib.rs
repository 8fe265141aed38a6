//! A text-authentication and symmetric-encryption toolkit.
//!
//! Three algorithm families stand behind a small set of capability traits:
//! a keyed cryptographic hash (BLAKE3), an asymmetric signature scheme
//! (Ed25519), and an authenticated symmetric cipher (ChaCha20-Poly1305).
//! The process-level entry points select a family by tag, work on byte
//! buffers handed in by the caller, and carry every binary value across the
//! text boundary as base64url without padding.

pub mod b64;
pub mod cipher;
pub mod cli;
pub mod compare;
pub mod errors;
pub mod keygen;
pub mod primitives;
pub mod process;
pub mod sign;
pub mod trimming;

pub use b64::process_decode;
pub use b64::process_encode;
pub use b64::Base64Format;
pub use cipher::Chacha;
pub use cli::parse_base64_format;
pub use cli::verify_file;
pub use cli::verify_path;
pub use cli::Base64DecodeOpts;
pub use cli::Base64EncodeOpts;
pub use cli::Base64SubCommand;
pub use cli::TextDecryptOpts;
pub use cli::TextEncryptOpts;
pub use cli::TextKeyGenerateOpts;
pub use cli::TextSignOpts;
pub use cli::TextSubCommand;
pub use cli::TextVerifyOpts;
pub use errors::CryptoError;
pub use process::key_file_names;
pub use process::process_decrypt;
pub use process::process_encrypt;
pub use process::process_gen_key;
pub use process::process_sign;
pub use process::process_verify;
pub use sign::parse_format;
pub use sign::Blake3;
pub use sign::Ed25519Signer;
pub use sign::Ed25519Verifier;
pub use sign::KeyGenerator;
pub use sign::KeyLoader;
pub use sign::TextSign;
pub use sign::TextSignFormat;
pub use sign::TextVerify;
