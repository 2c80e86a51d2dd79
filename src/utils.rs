use vstd::prelude::*;
use vstd::utf8::{decode_utf8, valid_utf8};

use crate::error::{Error, IoErrorKind};

verus! {

/// Reads a buffer as text: the characters that its bytes encode in UTF-8,
/// or `InvalidData` where they are no UTF-8.
pub fn bytes_to_str(bytes: &[u8]) -> (r: Result<&str, Error>)
    ensures
        r is Ok <==> valid_utf8(bytes@),
        r matches Ok(s) ==> s@ == decode_utf8(bytes@),
        r matches Err(e) ==> e == Error::Io(IoErrorKind::InvalidData),
{
    match decode_utf8_bytes(bytes) {
        Some(s) => Ok(s),
        None => Err(Error::Io(IoErrorKind::InvalidData)),
    }
}

/// Relies on `std::str::from_utf8`: it returns the text that the bytes
/// encode exactly when they are well-formed UTF-8.
#[verifier::external_body]
fn decode_utf8_bytes(bytes: &[u8]) -> (r: Option<&str>)
    ensures
        r is Some <==> valid_utf8(bytes@),
        r matches Some(s) ==> s@ == decode_utf8(bytes@),
{
    std::str::from_utf8(bytes).ok()
}

} // verus!
