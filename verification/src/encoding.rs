//! From base64 text to bytes.

use vstd::prelude::*;
use crate::error::PsbtError;

verus! {

/// The `base64` crate's decoding error. Nothing is read from it.
#[verifier::external_type_specification]
#[verifier::external_body]
pub struct ExDecodeError(base64::DecodeError);

/// The bytes that `base64::decode` reads from a text (standard alphabet,
/// padding optional), or `None` where it rejects the text.
pub uninterp spec fn base64_decoded(text: Seq<char>) -> Option<Seq<u8>>;

/// Calls `base64::decode`. The call is a function of the text alone. Its only
/// panic is on a length within seven bytes of `usize::MAX`, which no string
/// in memory has.
#[verifier::external_body]
fn base64_decode(text: &str) -> (r: Result<Vec<u8>, base64::DecodeError>)
    ensures
        match r {
            Ok(bytes) => base64_decoded(text@) == Some(bytes@),
            Err(_) => base64_decoded(text@) is None,
        },
{
    base64::decode(text)
}

/// The bytes that a text encodes, or the encoding error in their place.
pub open spec fn bytes_decoded(text: Seq<char>) -> Result<Seq<u8>, PsbtError> {
    match base64_decoded(text) {
        Some(bytes) => Ok(bytes),
        None => Err(PsbtError::Encoding),
    }
}

/// The view of a byte buffer or of the error in its place.
pub open spec fn bytes_result_view(r: Result<Vec<u8>, PsbtError>) -> Result<Seq<u8>, PsbtError> {
    match r {
        Ok(bytes) => Ok(bytes@),
        Err(e) => Err(e),
    }
}

/// Decodes base64 text. Text that is not valid base64 is an encoding error.
pub fn decode_base64(text: &str) -> (r: Result<Vec<u8>, PsbtError>)
    ensures
        bytes_result_view(r) == bytes_decoded(text@),
{
    match base64_decode(text) {
        Ok(bytes) => Ok(bytes),
        Err(_) => Err(PsbtError::Encoding),
    }
}

} // verus!
