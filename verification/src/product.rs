//! The runtime's name and version, which it returns as null-terminated bytes
//! that it owns for the life of the process.
//!
//! The functions here take those bytes without the terminator and read them
//! as text. The text borrows the bytes: nothing is copied and no character
//! is substituted, so bytes that are not UTF-8 are refused.

use vstd::prelude::*;
use vstd::utf8::*;

verus! {

/// `core::str::Utf8Error`, which `core::str::from_utf8` returns for bytes
/// that are not UTF-8. Nothing is read from it.
#[verifier::external_type_specification]
#[verifier::external_body]
pub struct ExUtf8Error(core::str::Utf8Error);

/// `core::str::from_utf8`, taken on trust: it succeeds exactly on well-formed
/// UTF-8, and the string slice it then returns is made of the very bytes it
/// was given.
pub assume_specification[ core::str::from_utf8 ](v: &[u8]) -> (result: Result<
    &str,
    core::str::Utf8Error,
>)
    ensures
        result is Ok <==> valid_utf8(v@),
        result matches Ok(text) ==> encode_utf8(text@) == v@,
;

/// Bytes from the runtime that are not valid text.
#[derive(Copy, Clone, Debug, PartialEq, Eq, Structural)]
pub struct DecodingError;

/// Text read from bytes is written with those same bytes, and is empty
/// only if there were no bytes.
pub proof fn lemma_text_keeps_bytes(raw: Seq<u8>)
    requires
        valid_utf8(raw),
    ensures
        encode_utf8(decode_utf8(raw)) == raw,
        decode_utf8(raw).len() == 0 <==> raw.len() == 0,
{
    decode_utf8_encode_utf8(raw);
}

/// What is read depends on the bytes alone: the same bytes always read as
/// the same text, and only the same bytes do.
pub proof fn lemma_text_is_stable(first: Seq<u8>, second: Seq<u8>)
    requires
        valid_utf8(first),
        valid_utf8(second),
    ensures
        first == second <==> decode_utf8(first) == decode_utf8(second),
{
    lemma_text_keeps_bytes(first);
    lemma_text_keeps_bytes(second);
}

/// Reads bytes of the runtime as text.
fn read_text(raw: &[u8]) -> (result: Result<&str, DecodingError>)
    ensures
        result is Ok <==> valid_utf8(raw@),
        result matches Ok(text) ==> text@ == decode_utf8(raw@) && encode_utf8(text@) == raw@,
        result matches Ok(text) ==> (text@.len() == 0 <==> raw@.len() == 0),
{
    match core::str::from_utf8(raw) {
        Ok(text) => {
            proof {
                encode_utf8_decode_utf8(text@);
                lemma_text_keeps_bytes(raw@);
            }
            Ok(text)
        },
        Err(_) => Err(DecodingError),
    }
}

/// The product name, read from the bytes that the runtime returns for it.
///
/// Succeeds exactly on well-formed UTF-8. The name depends on the bytes
/// alone, so for as long as the runtime returns the same bytes every call
/// yields the same name, and a name read from at least one byte is not empty.
pub fn product_name(raw: &[u8]) -> (result: Result<&str, DecodingError>)
    ensures
        result is Ok <==> valid_utf8(raw@),
        result matches Ok(name) ==> name@ == decode_utf8(raw@) && encode_utf8(name@) == raw@,
        result matches Ok(name) ==> (name@.len() == 0 <==> raw@.len() == 0),
{
    read_text(raw)
}

/// The product version, read from the bytes that the runtime returns for it.
///
/// Succeeds exactly on well-formed UTF-8. The version depends on the bytes
/// alone, so for as long as the runtime returns the same bytes every call
/// yields the same version, and a version read from at least one byte is not
/// empty.
pub fn product_version(raw: &[u8]) -> (result: Result<&str, DecodingError>)
    ensures
        result is Ok <==> valid_utf8(raw@),
        result matches Ok(version) ==> version@ == decode_utf8(raw@) && encode_utf8(version@)
            == raw@,
        result matches Ok(version) ==> (version@.len() == 0 <==> raw@.len() == 0),
{
    read_text(raw)
}

} // verus!
