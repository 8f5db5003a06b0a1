//! Bytes as text: strict UTF-8.

use crate::error::{Cause, RemotePidError};
use vstd::prelude::*;
use vstd::string::StringSliceAdditionalSpecFns;
use vstd::utf8::valid_utf8;

verus! {

/// The error of `std::str::from_utf8`, which this library only passes on.
#[verifier::external_type_specification]
#[verifier::external_body]
pub struct ExUtf8Error(std::str::Utf8Error);

/// Calls `std::str::from_utf8`. Trusted, as the standard library documents
/// it: the call succeeds exactly on the byte strings that are valid UTF-8,
/// and the text it then returns is made of the very bytes it was given.
#[verifier::external_body]
fn from_utf8(bytes: &[u8]) -> (text: Result<&str, std::str::Utf8Error>)
    ensures
        text is Ok <==> valid_utf8(bytes@),
        text matches Ok(s) ==> s.spec_bytes() == bytes@,
{
    std::str::from_utf8(bytes)
}

/// Reads `bytes` as text, which they are if and only if they are valid UTF-8.
pub fn decode(bytes: &[u8]) -> (text: Result<&str, RemotePidError>)
    ensures
        match text {
            Ok(s) => valid_utf8(bytes@) && s.spec_bytes() == bytes@,
            Err(e) => !valid_utf8(bytes@) && e == RemotePidError::Other(Cause::InvalidUtf8),
        },
{
    match from_utf8(bytes) {
        Ok(s) => Ok(s),
        Err(_) => Err(RemotePidError::Other(Cause::InvalidUtf8)),
    }
}

} // verus!
