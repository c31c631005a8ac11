//! The library's error type.

use vstd::prelude::*;

use crate::history::error::{LogHistoryError, LogHistoryErrorView};
use crate::text::join2;

verus! {

/// The error of `url::Url::parse`, which is carried as it is.
#[verifier::external_type_specification]
#[verifier::external_body]
pub struct ExUrlParseError(url::ParseError);

/// What can go wrong.
#[derive(Debug)]
pub enum Error {
    /// A failure that has no variant of its own.
    Generic(String),
    /// A broken internal assumption.
    InternalError(String),
    /// A request that is not supported.
    Unsupported(String),
    /// A schema that is not valid.
    Schema(String),
    /// A value that must be there and is not.
    MissingData(String),
    /// A decimal type that is not valid.
    InvalidDecimal(String),
    /// A plan whose result is not of the expected kind.
    PlanResultTypeMismatch { expected: &'static str, actual: &'static str },
    /// A location at which there can be no table.
    InvalidTableLocation(String),
    /// A text that is no URL.
    InvalidUrl(url::ParseError),
    /// Bytes that are not valid UTF-8.
    InvalidUtf8(std::str::Utf8Error),
    /// A conversion between timestamps and versions that failed.
    LogHistory(Box<LogHistoryError>),
}

/// What an [`Error`] says.
pub enum ErrorView {
    Generic(Seq<char>),
    InternalError(Seq<char>),
    Unsupported(Seq<char>),
    Schema(Seq<char>),
    MissingData(Seq<char>),
    InvalidDecimal(Seq<char>),
    PlanResultTypeMismatch { expected: Seq<char>, actual: Seq<char> },
    InvalidTableLocation(Seq<char>),
    InvalidUrl(url::ParseError),
    InvalidUtf8(std::str::Utf8Error),
    LogHistory(Box<LogHistoryErrorView>),
}

impl Error {
    pub open spec fn view(self) -> ErrorView
        decreases self,
    {
        match self {
            Error::Generic(m) => ErrorView::Generic(m@),
            Error::InternalError(m) => ErrorView::InternalError(m@),
            Error::Unsupported(m) => ErrorView::Unsupported(m@),
            Error::Schema(m) => ErrorView::Schema(m@),
            Error::MissingData(m) => ErrorView::MissingData(m@),
            Error::InvalidDecimal(m) => ErrorView::InvalidDecimal(m@),
            Error::PlanResultTypeMismatch { expected, actual } => ErrorView::PlanResultTypeMismatch {
                expected: expected@,
                actual: actual@,
            },
            Error::InvalidTableLocation(m) => ErrorView::InvalidTableLocation(m@),
            Error::InvalidUrl(e) => ErrorView::InvalidUrl(e),
            Error::InvalidUtf8(e) => ErrorView::InvalidUtf8(e),
            Error::LogHistory(e) => ErrorView::LogHistory(Box::new(e.view())),
        }
    }
}

impl ErrorView {
    /// The message of the error.
    pub open spec fn text(self) -> Seq<char>
        decreases self,
    {
        match self {
            ErrorView::Generic(m) => "Generic delta kernel error: "@ + m,
            ErrorView::InternalError(m) => m,
            ErrorView::Unsupported(m) => m,
            ErrorView::Schema(m) => "Schema error: "@ + m,
            ErrorView::MissingData(m) => m,
            ErrorView::InvalidDecimal(m) => m,
            ErrorView::PlanResultTypeMismatch {
                expected,
                actual,
            } => "Plan result type mismatch: expected "@ + expected + ", got "@ + actual,
            ErrorView::InvalidTableLocation(m) => m,
            ErrorView::InvalidUrl(_) => "Invalid URL"@,
            ErrorView::InvalidUtf8(_) => "Invalid UTF-8"@,
            ErrorView::LogHistory(e) => e.text(),
        }
    }
}

/// The result of an operation that can fail with an [`Error`].
pub type DeltaResult<T> = Result<T, Error>;

impl Error {
    /// A generic error with the given message.
    pub fn generic(message: String) -> (r: Error)
        ensures
            r@ == ErrorView::Generic(message@),
    {
        Error::Generic(message)
    }

    /// An internal error with the given message.
    pub fn internal_error(message: String) -> (r: Error)
        ensures
            r@ == ErrorView::InternalError(message@),
    {
        Error::InternalError(message)
    }

    /// The error for a request that is not supported.
    pub fn unsupported(message: String) -> (r: Error)
        ensures
            r@ == ErrorView::Unsupported(message@),
    {
        Error::Unsupported(message)
    }

    /// The error for a field whose value must be there and is not.
    pub fn missing_data(field: &str) -> (r: Error)
        ensures
            r@ == ErrorView::MissingData("Data missing for field "@ + field@),
    {
        Error::MissingData(join2("Data missing for field ", field))
    }

    /// The message of the error.
    pub fn to_text(&self) -> (r: String)
        ensures
            r@ == self@.text(),
        decreases self,
    {
        match self {
            Error::Generic(m) => join2("Generic delta kernel error: ", m.as_str()),
            Error::InternalError(m) => m.clone(),
            Error::Unsupported(m) => m.clone(),
            Error::Schema(m) => join2("Schema error: ", m.as_str()),
            Error::MissingData(m) => m.clone(),
            Error::InvalidDecimal(m) => m.clone(),
            Error::PlanResultTypeMismatch { expected, actual } => {
                let mut out = "Plan result type mismatch: expected ".to_owned();
                out.append(expected);
                out.append(", got ");
                out.append(actual);
                out
            },
            Error::InvalidTableLocation(m) => m.clone(),
            Error::InvalidUrl(_) => "Invalid URL".to_owned(),
            Error::InvalidUtf8(_) => "Invalid UTF-8".to_owned(),
            Error::LogHistory(e) => e.to_text(),
        }
    }
}

} // verus!
