//! The envelope in which every call across the boundary hands back its
//! outcome: a payload, a code, and a diagnostic text.

use vstd::prelude::*;
use crate::error::{Error, SUCCESS};
use crate::text::{diagnostic_buffer, is_terminated, terminate_diagnostic};

verus! {

/// The outcome of a call: on success the payload, on failure a code and,
/// where the cause had something to say, a diagnostic as a terminated buffer.
/// Each part that is there is owned by the envelope alone.
#[derive(Debug)]
pub struct ResultWrap<T> {
    /// The payload, absent on failure.
    pub pointer: Option<T>,
    /// `SUCCESS`, or the code of the failure.
    pub error: usize,
    /// The diagnostic, a terminated buffer; absent on success.
    pub error_message: Option<Vec<u8>>,
}

impl<T> ResultWrap<T> {
    /// What holds of every envelope that the library hands out: a success
    /// has a payload and no diagnostic; a failure has no payload and the code
    /// of a known failure; a diagnostic is a terminated buffer.
    pub open spec fn well_formed(self) -> bool {
        &&& self.error == SUCCESS ==> self.pointer is Some && self.error_message is None
        &&& self.error != SUCCESS ==> self.pointer is None && Error::spec_from_code(self.error)
            is Some
        &&& self.error_message matches Some(message) ==> is_terminated(message@)
    }

    /// The envelope of a success with this payload.
    pub open spec fn is_success(self, payload: T) -> bool {
        &&& self.pointer == Some(payload)
        &&& self.error == SUCCESS
        &&& self.error_message is None
    }

    /// The envelope of this failure, with the diagnostic held in its buffer
    /// where there is one: the text's bytes, terminated, with any zero byte
    /// among them left out.
    pub open spec fn is_failure(self, error: Error, diagnostic: Option<Seq<char>>) -> bool {
        &&& self.pointer is None
        &&& self.error == error.spec_code()
        &&& match diagnostic {
            Some(text) => self.error_message matches Some(message) && message@
                == diagnostic_buffer(text),
            None => self.error_message is None,
        }
    }

    /// Wraps the payload of a call that succeeded.
    pub fn success(payload: T) -> (envelope: Self)
        ensures
            envelope.is_success(payload),
            envelope.well_formed(),
    {
        ResultWrap { pointer: Some(payload), error: SUCCESS, error_message: None }
    }

    /// Wraps a failure. The diagnostic is copied into a buffer of its own,
    /// without the zero bytes that it may hold.
    pub fn failure(error: Error, diagnostic: Option<&str>) -> (envelope: Self)
        ensures
            envelope.is_failure(
                error,
                match diagnostic {
                    Some(text) => Some(text@),
                    None => None,
                },
            ),
            envelope.well_formed(),
    {
        let error_message = match diagnostic {
            Some(text) => Some(terminate_diagnostic(text)),
            None => None,
        };
        proof {
            crate::error::lemma_code_round_trip(error, error.spec_code());
        }
        ResultWrap { pointer: None, error: error.code(), error_message }
    }

    /// Wraps what a fallible step gave: its value as a success, its error
    /// text as the diagnostic of `failure`. Every outcome has its envelope.
    pub fn from_outcome(outcome: Result<T, String>, failure: Error) -> (envelope: Self)
        ensures
            outcome matches Ok(payload) ==> envelope.is_success(payload),
            outcome matches Err(text) ==> envelope.is_failure(failure, Some(text@)),
            envelope.well_formed(),
    {
        match outcome {
            Ok(payload) => ResultWrap::success(payload),
            Err(text) => ResultWrap::failure(failure, Some(text.as_str())),
        }
    }
}

} // verus!
