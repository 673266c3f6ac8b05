//! The numeric failure codes that an envelope can carry.

use vstd::prelude::*;

verus! {

/// The code of an envelope whose call succeeded. No failure uses it.
pub const SUCCESS: usize = 0;

/// Why a call across the boundary failed.
#[derive(Clone, Copy, Debug, PartialEq, Eq, Structural)]
pub enum Error {
    /// The engine could not construct a session.
    CannotCreateSession,
    /// The engine could not identify the file.
    CannotIdentifyFile,
    /// The caller handed over no session.
    NullSession,
    /// The path bytes are not valid text.
    InvalidFilePathToIdentify,
}

impl Error {
    /// The number that stands for this failure in an envelope.
    pub open spec fn spec_code(self) -> usize {
        match self {
            Error::CannotCreateSession => 1,
            Error::CannotIdentifyFile => 2,
            Error::NullSession => 3,
            Error::InvalidFilePathToIdentify => 4,
        }
    }

    /// The failure that a code stands for, if it stands for one.
    pub open spec fn spec_from_code(code: usize) -> Option<Error> {
        if code == 1 {
            Some(Error::CannotCreateSession)
        } else if code == 2 {
            Some(Error::CannotIdentifyFile)
        } else if code == 3 {
            Some(Error::NullSession)
        } else if code == 4 {
            Some(Error::InvalidFilePathToIdentify)
        } else {
            None
        }
    }

    /// The number that stands for this failure in an envelope.
    pub fn code(&self) -> (code: usize)
        ensures
            code == self.spec_code(),
            code != SUCCESS,
    {
        match self {
            Error::CannotCreateSession => 1,
            Error::CannotIdentifyFile => 2,
            Error::NullSession => 3,
            Error::InvalidFilePathToIdentify => 4,
        }
    }

    /// Reads a code back: `None` for the success code and for every number
    /// that no failure uses.
    pub fn from_code(code: usize) -> (error: Option<Error>)
        ensures
            error == Error::spec_from_code(code),
    {
        if code == 1 {
            Some(Error::CannotCreateSession)
        } else if code == 2 {
            Some(Error::CannotIdentifyFile)
        } else if code == 3 {
            Some(Error::NullSession)
        } else if code == 4 {
            Some(Error::InvalidFilePathToIdentify)
        } else {
            None
        }
    }
}

/// The success code stands for no failure, and two failures never share a
/// code.
pub proof fn lemma_codes_are_distinct(a: Error, b: Error)
    ensures
        a.spec_code() != SUCCESS,
        a.spec_code() == b.spec_code() <==> a == b,
        Error::spec_from_code(SUCCESS) is None,
{
}

/// Reading back the code of a failure gives that failure, and a code that
/// reads back as a failure is that failure's code.
pub proof fn lemma_code_round_trip(error: Error, code: usize)
    ensures
        Error::spec_from_code(error.spec_code()) == Some(error),
        Error::spec_from_code(code) == Some(error) <==> code == error.spec_code(),
{
}

} // verus!
