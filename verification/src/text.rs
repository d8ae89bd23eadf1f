//! The property reader's decoding step: turning the bytes read from the
//! reply property into UTF-8 text, or a typed failure when they are not
//! valid UTF-8.

use vstd::prelude::*;

use vstd::utf8::{decode_utf8, encode_utf8, valid_utf8};

use crate::error::RetrievalError;

verus! {

/// Relies on `String::from_utf8`: it returns `Ok` exactly when the bytes
/// are a valid UTF-8 encoding, and the returned string is their decoding.
#[verifier::external_body]
fn bytes_into_string(bytes: Vec<u8>) -> (r: Option<String>)
    ensures
        r matches Some(s) ==> valid_utf8(bytes@) && s@ == decode_utf8(bytes@),
        r is None ==> !valid_utf8(bytes@),
{
    String::from_utf8(bytes).ok()
}

/// Decode the bytes read from the reply property as UTF-8 text.
///
/// Valid UTF-8 always succeeds and yields exactly its decoding; anything
/// else fails with [`RetrievalError::DecodeFailed`] — a data-integrity
/// failure, kept distinct from the protocol failures — and yields no text.
pub fn decode_clipboard_text(bytes: Vec<u8>) -> (r: Result<String, RetrievalError>)
    ensures
        valid_utf8(bytes@) ==> (r matches Ok(s) && s@ == decode_utf8(bytes@)),
        !valid_utf8(bytes@) ==> r == Err::<String, RetrievalError>(RetrievalError::DecodeFailed),
{
    match bytes_into_string(bytes) {
        Some(s) => Ok(s),
        None => Err(RetrievalError::DecodeFailed),
    }
}

/// Law: decoding is a round trip. The text returned for a valid UTF-8 byte
/// sequence re-encodes to exactly the bytes that were read.
pub proof fn decoded_text_reencodes(bytes: Seq<u8>)
    requires
        valid_utf8(bytes),
    ensures
        encode_utf8(decode_utf8(bytes)) == bytes,
{
    vstd::utf8::decode_utf8_encode_utf8(bytes);
}

} // verus!
