//! Base64 encoding and decoding utilities.

use crate::error::Error;
use vstd::prelude::*;
use vstd::string::StringExecFns;

verus! {

/// The standard base64 text of a sequence of bytes, with padding.
pub uninterp spec fn base64_text(data: Seq<u8>) -> Seq<char>;

/// The bytes that a text holds in standard base64, if it is well formed.
pub uninterp spec fn base64_bytes(text: Seq<char>) -> Option<Seq<u8>>;

/// `base64::encode`: the text of the bytes in the standard alphabet, with
/// padding. The text is well formed, and `base64::decode` reads the same
/// bytes back from it.
#[verifier::external_body]
fn encode(data: &[u8]) -> (text: String)
    ensures
        text@ == base64_text(data@),
        base64_bytes(text@) == Some(data@),
{
    base64::encode(data)
}

/// `base64::decode`: the bytes of a text in the standard alphabet, or the
/// text of the error when the text is not well formed.
#[verifier::external_body]
fn decode(text: &str) -> (r: Result<Vec<u8>, String>)
    ensures
        match r {
            Ok(bytes) => base64_bytes(text@) == Some(bytes@),
            Err(_) => base64_bytes(text@) is None,
        },
{
    base64::decode(text).map_err(|e| e.to_string())
}

/// Encode data as base64. Decoding the text gives the data back.
pub fn encode_base64(data: &[u8]) -> (text: String)
    ensures
        text@ == base64_text(data@),
        base64_bytes(text@) == Some(data@),
{
    encode(data)
}

/// Decode base64 data. A text that is not well-formed base64 is refused
/// with `ParseError`.
pub fn decode_base64(data: &str) -> (r: Result<Vec<u8>, Error>)
    ensures
        match r {
            Ok(bytes) => base64_bytes(data@) == Some(bytes@),
            Err(e) => base64_bytes(data@) is None && e is ParseError,
        },
{
    match decode(data) {
        Ok(bytes) => Ok(bytes),
        Err(reason) => Err(decode_failure(reason)),
    }
}

/// The error for a text that is not base64, given the decoder's reason.
pub fn decode_failure(reason: String) -> (e: Error)
    ensures
        e matches Error::ParseError(m) && m@ == "Failed to decode base64: "@ + reason@,
{
    let mut message = "Failed to decode base64: ".to_owned();
    message.append(reason.as_str());
    Error::ParseError(message)
}

} // verus!
