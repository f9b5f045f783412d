//! Decoding bytes as UTF-8 text.

use crate::error::BufferError;
use std::string::FromUtf8Error;
use vstd::prelude::*;
use vstd::utf8::*;

verus! {

/// `std::string::FromUtf8Error`, the error of `String::from_utf8`. Only its
/// presence is looked at.
#[verifier::external_type_specification]
#[verifier::external_body]
pub struct ExFromUtf8Error(FromUtf8Error);

/// `String::from_utf8` accepts exactly the byte vectors that are valid
/// UTF-8, and the string it then gives is made of those bytes: its
/// characters are the ones the bytes encode.
pub assume_specification[ String::from_utf8 ](vec: Vec<u8>) -> (outcome: Result<
    String,
    FromUtf8Error,
>)
    ensures
        outcome is Ok <==> valid_utf8(vec@),
        outcome matches Ok(s) ==> s@ == decode_utf8(vec@),
;

/// The text that `bytes` encode, or `InvalidEncoding` when they are not
/// valid UTF-8. Nothing is replaced or skipped.
pub open spec fn decoded(bytes: Seq<u8>) -> Result<Seq<char>, BufferError> {
    if valid_utf8(bytes) {
        Ok(decode_utf8(bytes))
    } else {
        Err(BufferError::InvalidEncoding)
    }
}

/// Decodes `bytes` as UTF-8, strictly.
pub fn decode_text(bytes: Vec<u8>) -> (text: Result<String, BufferError>)
    ensures
        match decoded(bytes@) {
            Ok(chars) => text matches Ok(s) && s@ == chars,
            Err(e) => text == Err::<String, BufferError>(e),
        },
{
    match String::from_utf8(bytes) {
        Ok(text) => Ok(text),
        Err(_) => Err(BufferError::InvalidEncoding),
    }
}

} // verus!
