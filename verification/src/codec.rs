//! Byte payload codec: the wire envelope carries the child's input and
//! output as base64 text, encoded and decoded by the base64 crate.

use vstd::prelude::*;

verus! {

/// What base64's standard-alphabet decoder returns for a given text: the
/// decoded bytes, or nothing where the text is not valid base64.
pub uninterp spec fn base64_decode_of(s: Seq<char>) -> Option<Seq<u8>>;

/// What base64's standard-alphabet encoder returns for given bytes.
pub uninterp spec fn base64_encode_of(b: Seq<u8>) -> Seq<char>;

/// Relies on base64::decode: the standard alphabet with padding; it returns
/// the decoded bytes, or a DecodeError where the text is not valid base64.
/// The error's text is handed back as the Err value.
#[verifier::external_body]
pub(crate) fn base64_decode(s: &str) -> (r: Result<Vec<u8>, String>)
    ensures
        r is Ok <==> base64_decode_of(s@) is Some,
        r matches Ok(v) ==> base64_decode_of(s@) == Some(v@),
{
    match base64::decode(s) {
        Ok(v) => Ok(v),
        Err(e) => Err(format!("{:?}", e)),
    }
}

/// Relies on base64::encode: the standard alphabet with padding, a function
/// of the bytes alone; base64::decode of the encoding returns the original
/// bytes.
#[verifier::external_body]
pub(crate) fn base64_encode(b: &[u8]) -> (r: String)
    ensures
        r@ == base64_encode_of(b@),
        base64_decode_of(r@) == Some(b@),
{
    base64::encode(b)
}

} // verus!
