//! Base64 at the text boundary: binary values cross the process boundary as
//! base64 text, in the standard padded alphabet or URL-safe without padding.

use vstd::prelude::*;

use crate::errors::CryptoError;
use crate::primitives::{
    b64_standard, b64_standard_decode, b64_standard_encode, b64_url, b64_url_decode,
    b64_url_encode,
};
use crate::trimming::{lemma_trim_no_space, trim_spec, trim_text};

verus! {

/// The two recognized base64 alphabets.
#[derive(Clone, Copy, Debug, PartialEq, Eq, Structural)]
pub enum Base64Format {
    /// Standard alphabet, with `=` padding.
    Standard,
    /// URL-safe alphabet, without padding.
    UrlSafe,
}

/// The base64 text of `data` under the chosen format.
pub open spec fn encoded_text(format: Base64Format, data: Seq<u8>) -> Seq<char> {
    match format {
        Base64Format::Standard => b64_standard(data),
        Base64Format::UrlSafe => b64_url(data),
    }
}

/// Encodes `data` as base64 text under the chosen format. The text holds
/// no surrounding whitespace: it is its own trim.
pub fn process_encode(data: &[u8], format: Base64Format) -> (r: String)
    ensures
        r@ == encoded_text(format, data@),
        trim_spec(r@) == r@,
{
    let text = match format {
        Base64Format::Standard => b64_standard_encode(data),
        Base64Format::UrlSafe => b64_url_encode(data),
    };
    proof {
        lemma_trim_no_space(text@);
    }
    text
}

/// Decodes base64 text under the chosen format, after stripping leading
/// and trailing whitespace. It accepts exactly the canonical encodings:
/// whatever bytes come back encode to the trimmed text itself, and every
/// canonically encoded input does come back.
pub fn process_decode(data: &str, format: Base64Format) -> (r: Result<Vec<u8>, CryptoError>)
    ensures
        r matches Ok(b) ==> trim_spec(data@) == encoded_text(format, b@),
        forall|b: Seq<u8>| trim_spec(data@) == encoded_text(format, b) ==> r is Ok && r->Ok_0@
            == b,
        r is Err ==> r->Err_0 == CryptoError::Encoding,
{
    let text = trim_text(data);
    match format {
        Base64Format::Standard => b64_standard_decode(text),
        Base64Format::UrlSafe => b64_url_decode(text),
    }
}

} // verus!
