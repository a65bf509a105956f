//! The failures that the mapper reports.

use vstd::prelude::*;
use vstd::string::*;

verus! {

/// Why an operation of the mapper failed.
#[derive(Debug, PartialEq, Eq)]
pub enum Error {
    /// A value did not have the shape that a conversion asked for; holds the
    /// name of the expected shape.
    TypeMismatch(&'static str),
    /// A record lacks a required field; holds the field's name.
    PropertyNotFound(String),
    /// The text is not a record identifier of the store; holds the text.
    IdentifierParseError(String),
    /// The store failed; holds its description of the failure.
    StoreError(String),
    /// The store answered a statement with no result at all.
    InternalInvariantViolation,
}

/// The mathematical value of an [`Error`].
pub enum ErrorView {
    TypeMismatch(Seq<char>),
    PropertyNotFound(Seq<char>),
    IdentifierParseError(Seq<char>),
    StoreError(Seq<char>),
    InternalInvariantViolation,
}

impl View for Error {
    type V = ErrorView;

    open spec fn view(&self) -> ErrorView {
        match self {
            Error::TypeMismatch(shape) => ErrorView::TypeMismatch(shape@),
            Error::PropertyNotFound(field) => ErrorView::PropertyNotFound(field@),
            Error::IdentifierParseError(text) => ErrorView::IdentifierParseError(text@),
            Error::StoreError(detail) => ErrorView::StoreError(detail@),
            Error::InternalInvariantViolation => ErrorView::InternalInvariantViolation,
        }
    }
}

/// The mathematical value of an outcome of the mapper.
pub open spec fn outcome<T: View>(r: Result<T, Error>) -> Result<T::V, ErrorView> {
    match r {
        Ok(value) => Ok(value@),
        Err(error) => Err(error@),
    }
}

/// The text that describes `error`.
pub open spec fn message_of(error: ErrorView) -> Seq<char> {
    match error {
        ErrorView::TypeMismatch(shape) => "Value not of type '"@ + shape + "'"@,
        ErrorView::PropertyNotFound(field) => "Property '"@ + field + "' not found"@,
        ErrorView::IdentifierParseError(text) => "Invalid record identifier '"@ + text + "'"@,
        ErrorView::StoreError(detail) => detail,
        ErrorView::InternalInvariantViolation => "Did not get a response"@,
    }
}

impl Error {
    /// Describes the failure in words. A failure of the store is described
    /// in the store's own words.
    pub fn message(&self) -> (text: String)
        ensures
            text@ == message_of(self@),
    {
        match self {
            Error::TypeMismatch(shape) => String::from_str("Value not of type '").concat(
                shape,
            ).concat("'"),
            Error::PropertyNotFound(field) => String::from_str("Property '").concat(
                field.as_str(),
            ).concat("' not found"),
            Error::IdentifierParseError(text) => String::from_str(
                "Invalid record identifier '",
            ).concat(text.as_str()).concat("'"),
            Error::StoreError(detail) => detail.clone(),
            Error::InternalInvariantViolation => String::from_str("Did not get a response"),
        }
    }
}

} // verus!
