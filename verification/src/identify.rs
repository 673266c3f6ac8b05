//! The identification call: what is checked before the engine is asked, how
//! its answer is wrapped, and how the envelope is released.

use vstd::prelude::*;
use vstd::utf8::valid_utf8;
use crate::engine::{decode_error_words, engine_info, utf8_text};
use crate::envelope::ResultWrap;
use crate::error::{Error, SUCCESS};
use crate::release::{release_record, release_text, type_info_release_order, Release};
use crate::text::bytes_of;
use crate::type_info::{TypeDescriptor, TypeInfo};

verus! {

/// What the identification call does before the engine is asked. Without a
/// session the answer is `NullSession`, at once and before the path is read.
/// Path bytes that are not valid text give `InvalidFilePathToIdentify` with
/// the decoder's words as the diagnostic. Else the path is handed on as text,
/// made of the same bytes, for the engine to be asked.
pub fn path_to_identify(has_session: bool, path: &[u8]) -> (step: Result<&str, ResultWrap<TypeInfo>>)
    ensures
        !has_session ==> (step matches Err(e) && e.is_failure(Error::NullSession, None)),
        has_session && !valid_utf8(path@) ==> (step matches Err(e) && e.is_failure(
            Error::InvalidFilePathToIdentify,
            Some(decode_error_words(path@)),
        )),
        has_session && valid_utf8(path@) ==> (step matches Ok(text) && bytes_of(text@) == path@),
        step matches Err(e) ==> e.well_formed(),
{
    if !has_session {
        return Err(ResultWrap::failure(Error::NullSession, None));
    }
    match utf8_text(path) {
        Ok(text) => Ok(text),
        Err(why) => Err(ResultWrap::failure(Error::InvalidFilePathToIdentify, Some(why.as_str()))),
    }
}

/// Copies what the engine says of a file type into a descriptor that owns
/// its text. Each text can cross.
pub fn describe(file_type: &magika::FileType) -> (info: TypeDescriptor)
    ensures
        info.can_cross(),
{
    let (label, mime_type, group, description, extensions, is_text) = engine_info(file_type);
    TypeDescriptor::new(label, mime_type, group, description, extensions, is_text)
}

/// Wraps the engine's answer: a descriptor is flattened into a record of its
/// own and becomes the payload of a success; an error becomes
/// `CannotIdentifyFile` with the engine's words as the diagnostic. A
/// descriptor with a zero byte in a text has no record and is left out.
pub fn identification(outcome: Result<TypeDescriptor, String>) -> (envelope: ResultWrap<TypeInfo>)
    requires
        outcome matches Ok(info) ==> info.can_cross(),
    ensures
        outcome matches Ok(info) ==> {
            &&& envelope.error == SUCCESS
            &&& envelope.error_message is None
            &&& envelope.pointer matches Some(record) && record@ == info.projection()
        },
        outcome matches Err(text) ==> envelope.is_failure(Error::CannotIdentifyFile, Some(text@)),
        envelope.well_formed(),
        envelope.pointer matches Some(record) ==> record@.well_formed() && record@.is_complete(),
{
    match outcome {
        Ok(info) => ResultWrap::success(TypeInfo::from(&info)),
        Err(text) => ResultWrap::failure(Error::CannotIdentifyFile, Some(text.as_str())),
    }
}

/// Wraps what came of asking the engine to identify a file: what it found
/// is described, flattened into a record of its own and becomes the payload
/// of a success; an error becomes `CannotIdentifyFile` with the engine's
/// words as the diagnostic.
pub fn magika_identify_file_sync(answer: Result<magika::FileType, String>) -> (envelope: ResultWrap<
    TypeInfo,
>)
    ensures
        answer is Ok ==> {
            &&& envelope.error == SUCCESS
            &&& envelope.error_message is None
            &&& envelope.pointer matches Some(record) && record@.well_formed()
                && record@.is_complete()
        },
        answer matches Err(why) ==> envelope.is_failure(Error::CannotIdentifyFile, Some(why@)),
        envelope.well_formed(),
{
    match answer {
        Ok(file_type) => identification(Ok(describe(&file_type))),
        Err(why) => identification(Err(why)),
    }
}

/// Releases the envelope of an identification and all it owns, innermost
/// parts first: each extension buffer, the array, the four texts, the
/// record, the diagnostic, and the envelope last. A part that is absent is
/// passed over, and a null envelope is left alone. The steps taken are handed
/// back in order.
pub fn magika_type_info_free(result_wrapper: Option<ResultWrap<TypeInfo>>) -> (released: Vec<
    Release,
>)
    ensures
        released@ == type_info_release_order(result_wrapper),
        result_wrapper is None ==> released@.len() == 0,
{
    let mut released: Vec<Release> = Vec::new();
    let envelope = match result_wrapper {
        Some(envelope) => envelope,
        None => {
            return released;
        },
    };
    let ResultWrap { pointer, error: _, error_message } = envelope;
    if let Some(info) = pointer {
        release_record(info, &mut released);
    }
    if let Some(message) = error_message {
        release_text(message, Release::Diagnostic, &mut released);
    }
    released.push(Release::Envelope);
    assert(released@ =~= type_info_release_order(result_wrapper));
    released
}

} // verus!
