//! Errors of the library.
//!
//! The engine reports a failure by its return code and by an error text that
//! it keeps in one place for the whole process.  Whoever calls the engine
//! reads the text right after a failing call and clears it, so that no later
//! call is blamed for it, and hands it to [`return_code_to_result`].  Where
//! several threads call the engine, the call and the reading of the text must
//! not be interleaved with another thread's.
use vstd::prelude::*;
use crate::text::{decimal, push_decimal};

verus! {

/// A text holds a NUL byte, so it cannot be handed to the engine, which reads
/// every text up to its first NUL.
#[derive(Debug, Clone, Copy, PartialEq, Eq, Structural)]
pub struct NulError {
    /// The index of the first NUL among the bytes of the text.
    pub position: usize,
}

/// Top-level error used for all engine operations.
#[derive(Debug, PartialEq, Eq)]
pub enum RrdError {
    /// A string contained a NUL byte, and thus could not be handed to the engine.
    NulError(NulError),
    /// A path contained non-UTF-8 data.
    PathEncodingError,
    /// An error that the engine reported, in the engine's own words.
    LibRrdError(String),
    /// The engine's answer did not have the expected shape.
    Internal(String),
    /// An argument was refused before the engine was called.
    InvalidArgument(String),
}

/// What an [`RrdError`] says, with its text as a sequence of characters.
pub enum RrdErrorView {
    NulError(NulError),
    PathEncodingError,
    LibRrdError(Seq<char>),
    Internal(Seq<char>),
    InvalidArgument(Seq<char>),
}

impl View for RrdError {
    type V = RrdErrorView;

    open spec fn view(&self) -> RrdErrorView {
        match self {
            RrdError::NulError(e) => RrdErrorView::NulError(*e),
            RrdError::PathEncodingError => RrdErrorView::PathEncodingError,
            RrdError::LibRrdError(s) => RrdErrorView::LibRrdError(s@),
            RrdError::Internal(s) => RrdErrorView::Internal(s@),
            RrdError::InvalidArgument(s) => RrdErrorView::InvalidArgument(s@),
        }
    }
}

/// A `Result<T, RrdError>`, a combination used throughout this library.
pub type RrdResult<T> = Result<T, RrdError>;

/// Indicates that a value was refused as an argument.
#[derive(Debug, PartialEq, Eq)]
pub struct InvalidArgument(pub &'static str);

impl RrdErrorView {
    /// The message that an error with this content shows.
    pub open spec fn message(self) -> Seq<char> {
        match self {
            RrdErrorView::NulError(e) => "nul byte found in provided data at position: "@
                + decimal(e.position as nat),
            RrdErrorView::PathEncodingError => "Path encoding error"@,
            RrdErrorView::LibRrdError(s) => "librrd: \""@ + s + "\""@,
            RrdErrorView::Internal(s) => "Internal error: "@ + s,
            RrdErrorView::InvalidArgument(s) => "Invalid argument: "@ + s,
        }
    }
}

impl RrdError {
    /// The error for a refused argument.
    pub fn from_invalid_argument(value: InvalidArgument) -> (e: RrdError)
        ensures
            e@ == RrdErrorView::InvalidArgument(value.0@),
    {
        RrdError::InvalidArgument(String::from_str(value.0))
    }

    /// The message of this error.
    pub fn message(&self) -> (s: String)
        ensures
            s@ == self@.message(),
    {
        match self {
            RrdError::NulError(e) => {
                let mut s = String::from_str("nul byte found in provided data at position: ");
                push_decimal(&mut s, e.position as u64);
                s
            },
            RrdError::PathEncodingError => String::from_str("Path encoding error"),
            RrdError::LibRrdError(t) => {
                let mut s = String::from_str("librrd: \"");
                s.append(t.as_str());
                s.append("\"");
                s
            },
            RrdError::Internal(t) => {
                let mut s = String::from_str("Internal error: ");
                s.append(t.as_str());
                s
            },
            RrdError::InvalidArgument(t) => {
                let mut s = String::from_str("Invalid argument: ");
                s.append(t.as_str());
                s
            },
        }
    }
}

impl InvalidArgument {
    /// The message of this error.
    pub fn message(&self) -> (s: String)
        ensures
            s@ == "Invalid argument: "@ + self.0@,
    {
        let mut s = String::from_str("Invalid argument: ");
        s.append(self.0);
        s
    }
}

/// The error that the engine's error text stands for, if it left one.
///
/// `error_text` is what the engine's error channel held when it was read and
/// cleared: `None` if it held nothing.
pub fn get_rrd_error(error_text: Option<String>) -> (r: Option<RrdError>)
    ensures
        match error_text {
            Some(t) => r matches Some(e) && e@ == RrdErrorView::LibRrdError(t@),
            None => r is None,
        },
{
    match error_text {
        Some(t) => Some(RrdError::LibRrdError(t)),
        None => None,
    }
}

/// Maps the return code `0` to `Ok`, anything else to `Err`.
///
/// After any other code the engine's error channel is read and cleared, and
/// `error_text` is what it held.  An engine that fails without a text breaks
/// its own protocol: that is an internal error.
pub fn return_code_to_result(rc: i32, error_text: Option<String>) -> (r: RrdResult<()>)
    ensures
        rc == 0 ==> r is Ok,
        rc != 0 ==> (r matches Err(e) && e@ == match error_text {
            Some(t) => RrdErrorView::LibRrdError(t@),
            None => RrdErrorView::Internal("Unknown error - no librrd error info"@),
        }),
{
    if rc == 0 {
        Ok(())
    } else {
        match get_rrd_error(error_text) {
            Some(e) => Err(e),
            None => Err(RrdError::Internal(String::from_str("Unknown error - no librrd error info"))),
        }
    }
}

} // verus!
