//! Decoding of transported text: base64 to bytes, bytes to UTF-8 text.

use vstd::prelude::*;
use vstd::utf8::{decode_utf8, valid_utf8};
use base64::engine::general_purpose::STANDARD;
use base64::Engine;

verus! {

/// Why base64 refused a text. Nothing is read from it.
#[verifier::external_type_specification]
#[verifier::external_body]
pub struct ExDecodeError(base64::DecodeError);

/// Why `String::from_utf8` refused bytes. Nothing is read from it.
#[verifier::external_type_specification]
#[verifier::external_body]
pub struct ExFromUtf8Error(std::string::FromUtf8Error);

/// The bytes that `text` stands for in standard, padded base64, or `None`
/// where `text` is not such an encoding.
pub uninterp spec fn base64_decoding(text: Seq<char>) -> Option<Seq<u8>>;

/// Calls `decode` of base64's `STANDARD` engine. The contract names what it
/// returns: the decoded bytes, or an error, as a function of the text alone.
#[verifier::external_body]
pub(crate) fn decode_standard(text: &str) -> (r: Result<Vec<u8>, base64::DecodeError>)
    ensures
        r is Ok <==> base64_decoding(text@) is Some,
        r matches Ok(bytes) ==> base64_decoding(text@) == Some(bytes@),
{
    STANDARD.decode(text)
}

/// Calls `String::from_utf8`. It succeeds exactly on well-formed UTF-8, and
/// the string then holds the characters that the bytes encode.
#[verifier::external_body]
pub(crate) fn string_from_utf8(bytes: Vec<u8>) -> (r: Result<String, std::string::FromUtf8Error>)
    ensures
        r is Ok <==> valid_utf8(bytes@),
        r matches Ok(text) ==> text@ == decode_utf8(bytes@),
{
    String::from_utf8(bytes)
}

} // verus!
