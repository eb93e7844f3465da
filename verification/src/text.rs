//! Decoding a body as UTF-8 text.
//!
//! Validity and the decoded characters are those of `vstd::utf8`. The check
//! itself is done by `core::str::from_utf8`, whose behaviour is assumed here.

use crate::error::FlowError;
use vstd::prelude::*;
use vstd::string::StringSliceAdditionalSpecFns;
use vstd::utf8::{decode_utf8, encode_utf8, encode_utf8_decode_utf8, valid_utf8};

verus! {

/// `core::str::Utf8Error`, known to the verifier by name only.
#[verifier::external_type_specification]
#[verifier::external_body]
pub struct ExUtf8Error(core::str::Utf8Error);

/// `core::str::from_utf8`. Assumed: it succeeds exactly on well-formed
/// UTF-8, and the string slice it then returns is made of the very bytes it
/// was given.
pub assume_specification[ core::str::from_utf8 ](bytes: &[u8]) -> (outcome: Result<
    &str,
    core::str::Utf8Error,
>)
    ensures
        outcome is Ok <==> valid_utf8(bytes@),
        outcome matches Ok(text) ==> text.spec_bytes() == bytes@,
;

/// The text a body stands for, or the decoding error when it is not
/// well-formed UTF-8.
pub open spec fn decoded(body: Seq<u8>) -> Result<Seq<char>, FlowError> {
    if valid_utf8(body) {
        Ok(decode_utf8(body))
    } else {
        Err(FlowError::Decode)
    }
}

/// Decodes `body` strictly: every byte must belong to a well-formed UTF-8
/// sequence, and nothing is replaced or skipped.
pub fn decode(body: &[u8]) -> (outcome: Result<String, FlowError>)
    ensures
        match decoded(body@) {
            Ok(text) => outcome matches Ok(string) && string@ == text,
            Err(error) => outcome == Err::<String, FlowError>(error),
        },
{
    match core::str::from_utf8(body) {
        Ok(text) => {
            proof {
                encode_utf8_decode_utf8(text@);
            }
            Ok(text.to_owned())
        },
        Err(_) => Err(FlowError::Decode),
    }
}

/// Text that is encoded and then decoded comes back unchanged.
pub proof fn decoding_inverts_encoding(text: Seq<char>)
    ensures
        decoded(encode_utf8(text)) == Ok::<Seq<char>, FlowError>(text),
{
    vstd::utf8::encode_utf8_valid_utf8(text);
    encode_utf8_decode_utf8(text);
}

} // verus!
