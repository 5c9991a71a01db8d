//! The key that signs session cookies, read from its base64 text in the
//! configuration.

use vstd::prelude::*;
use vstd::string::StringSliceAdditionalSpecFns;

verus! {

/// The error of `base64` decoding, carried through unread.
#[verifier::external_type_specification]
#[verifier::external_body]
pub struct ExDecodeError(base64::DecodeError);

/// The bytes that standard base64 (with padding) decodes from a text, or
/// nothing when the text is not valid base64.
pub uninterp spec fn base64_standard_decoded(input: Seq<u8>) -> Option<Seq<u8>>;

/// Calls `base64::Engine::decode` on the standard engine (the standard
/// alphabet, with padding). Claimed: it succeeds exactly when the input is
/// valid base64, and then returns the decoded bytes; both are the name
/// `base64_standard_decoded` applied to the input. Which decode error comes
/// back is not stated.
#[verifier::external_body]
fn decode_base64(input: &[u8]) -> (r: Result<Vec<u8>, base64::DecodeError>)
    ensures
        match r {
            Ok(bytes) => base64_standard_decoded(input@) == Some(bytes@),
            Err(_) => base64_standard_decoded(input@) is None,
        },
{
    base64::Engine::decode(&base64::engine::general_purpose::STANDARD, input)
}

/// Why the session key could not be read.
#[derive(Debug)]
pub enum SessionKeyError {
    /// The configured key is not valid base64.
    Base64Decode(base64::DecodeError),
}

/// The outcome of reading the key from the result of decoding its text:
/// the decoded bytes, or the decode error as a session-key error.
pub fn session_key_from(decoded: Result<Vec<u8>, base64::DecodeError>) -> (r: Result<
    Vec<u8>,
    SessionKeyError,
>)
    ensures
        match decoded {
            Ok(bytes) => r matches Ok(k) && k@ == bytes@,
            Err(e) => r matches Err(SessionKeyError::Base64Decode(f)) && f == e,
        },
{
    match decoded {
        Ok(bytes) => Ok(bytes),
        Err(e) => Err(SessionKeyError::Base64Decode(e)),
    }
}

/// The bytes of the session key whose base64 text is `encoded`: its
/// decoding when the text is valid base64, an error otherwise.
pub fn decode_session_key(encoded: &str) -> (r: Result<Vec<u8>, SessionKeyError>)
    ensures
        match base64_standard_decoded(encoded.spec_bytes()) {
            Some(bytes) => r matches Ok(k) && k@ == bytes,
            None => r matches Err(SessionKeyError::Base64Decode(_)),
        },
{
    let decoded = decode_base64(encoded.as_bytes());
    session_key_from(decoded)
}

} // verus!
