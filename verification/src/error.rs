//! The library error type.
use vstd::prelude::*;

verus! {

/// What an error carries: an FFmpeg error code or a message.
#[derive(Clone)]
pub enum ErrorVariant {
    /// An error code reported by FFmpeg.
    FFmpeg(i32),
    /// An error described by a message.
    Other(String),
}

/// An error.
#[derive(Clone)]
pub struct Error {
    variant: ErrorVariant,
}

impl Error {
    /// The FFmpeg error code, if the error carries one (model).
    pub closed spec fn spec_code(self) -> Option<i32> {
        match self.variant {
            ErrorVariant::FFmpeg(code) => Some(code),
            ErrorVariant::Other(_) => None,
        }
    }

    /// The message, if the error carries one (model).
    pub closed spec fn spec_message(self) -> Option<Seq<char>> {
        match self.variant {
            ErrorVariant::FFmpeg(_) => None,
            ErrorVariant::Other(msg) => Some(msg@),
        }
    }

    /// Create a new error with a given message.
    pub fn new(msg: String) -> (r: Error)
        ensures
            r.spec_message() == Some(msg@),
            r.spec_code() is None,
    {
        Error { variant: ErrorVariant::Other(msg) }
    }

    /// Create a new FFmpeg error from a given FFmpeg error code.
    pub fn from_raw_error_code(code: i32) -> (r: Error)
        ensures
            r.spec_code() == Some(code),
            r.spec_message() is None,
    {
        Error { variant: ErrorVariant::FFmpeg(code) }
    }

    /// The FFmpeg error code of this error (if any).
    pub fn raw_error_code(&self) -> (r: Option<i32>)
        ensures
            r == self.spec_code(),
    {
        match &self.variant {
            ErrorVariant::FFmpeg(code) => Some(*code),
            ErrorVariant::Other(_) => None,
        }
    }

    /// The message of this error (if it is not an FFmpeg error code).
    pub fn message(&self) -> (r: Option<&str>)
        ensures
            r matches Some(m) ==> self.spec_message() == Some(m@),
            r is None <==> self.spec_message() is None,
    {
        match &self.variant {
            ErrorVariant::FFmpeg(_) => None,
            ErrorVariant::Other(msg) => Some(msg.as_str()),
        }
    }
}

/// The result of a native call that reports failure by a negative FFmpeg
/// error code (a seek, a stream analysis, a push into or a flush of a
/// bitstream filter): a non-negative status is success.
pub fn status_result(status: i32) -> (r: Result<(), Error>)
    ensures
        status >= 0 ==> r is Ok,
        status < 0 ==> (r matches Err(e) && e.spec_code() == Some(status)),
{
    if status < 0 {
        Err(Error::from_raw_error_code(status))
    } else {
        Ok(())
    }
}

} // verus!
