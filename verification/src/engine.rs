//! What the library relies on without proof: the engine's types, its table
//! of type records, and the decoder of the standard library. Each contract
//! states what the called code is relied on to do.

use vstd::prelude::*;
use vstd::utf8::{encode_utf8, valid_utf8};
use crate::text::can_cross;

verus! {

/// `magika::Session`, the engine's state for repeated identifications. The
/// library carries it through and never looks inside.
#[verifier::external_type_specification]
#[verifier::external_body]
pub struct ExSession(magika::Session);

/// `magika::FileType`, what the engine found a path to be.
#[verifier::external_type_specification]
#[verifier::external_body]
pub struct ExFileType(magika::FileType);

/// The words in which the decoder of the standard library says why bytes are
/// not valid UTF-8: the `Display` of the `core::str::Utf8Error` that
/// `core::str::from_utf8` gives for them. They depend on the bytes alone.
pub uninterp spec fn decode_error_words(bytes: Seq<u8>) -> Seq<char>;

/// Calls `core::str::from_utf8` and renders its error as text with the
/// error's `Display`. The decoder accepts exactly the byte strings that are
/// valid UTF-8, and the text it gives is made of those bytes; for any other
/// bytes it gives its words on them.
#[verifier::external_body]
pub(crate) fn utf8_text(bytes: &[u8]) -> (decoded: Result<&str, String>)
    ensures
        decoded is Ok <==> valid_utf8(bytes@),
        decoded matches Ok(text) ==> encode_utf8(text@) == bytes@,
        decoded matches Err(why) ==> why@ == decode_error_words(bytes@),
{
    match core::str::from_utf8(bytes) {
        Ok(text) => Ok(text),
        Err(err) => Err(err.to_string()),
    }
}

/// Calls `magika::FileType::info` and hands out the fields of the static
/// record it points to, in the order label, MIME type, group, description,
/// extensions, text flag. Every such record is one of the engine's table of
/// literals, and none of these holds a zero byte: each text can cross.
#[verifier::external_body]
pub(crate) fn engine_info(file_type: &magika::FileType) -> (fields: (
    &'static str,
    &'static str,
    &'static str,
    &'static str,
    &'static [&'static str],
    bool,
))
    ensures
        can_cross(fields.0@),
        can_cross(fields.1@),
        can_cross(fields.2@),
        can_cross(fields.3@),
        forall|i: int| 0 <= i < fields.4@.len() ==> can_cross(#[trigger] fields.4@[i]@),
{
    let info = file_type.info();
    (info.label, info.mime_type, info.group, info.description, info.extensions, info.is_text)
}

} // verus!
