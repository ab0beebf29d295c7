//! Text payloads of characteristics.
use vstd::prelude::*;
use vstd::utf8::{decode_utf8, valid_utf8};
use crate::error::Error;

verus! {

/// Relies on `String::from_utf8`: it accepts exactly the valid UTF-8 byte
/// sequences and then holds the characters they encode.
#[verifier::external_body]
fn from_utf8(bytes: Vec<u8>) -> (r: Option<String>)
    ensures
        r is Some <==> valid_utf8(bytes@),
        r matches Some(s) ==> s@ == decode_utf8(bytes@),
{
    String::from_utf8(bytes).ok()
}

/// The text that `data` encodes; fails on bytes that are not valid UTF-8.
pub fn decode_text(data: Vec<u8>) -> (r: Result<String, Error>)
    ensures
        valid_utf8(data@) ==> (r matches Ok(s) && s@ == decode_utf8(data@)),
        !valid_utf8(data@) ==> r == Err::<String, Error>(Error::InvalidText),
{
    match from_utf8(data) {
        Some(s) => Ok(s),
        None => Err(Error::InvalidText),
    }
}

} // verus!
