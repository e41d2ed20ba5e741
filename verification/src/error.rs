//! The ways in which a request can fail.
use delta_kernel::arrow::error::ArrowError;
use vstd::prelude::*;

verus! {

#[verifier::external_type_specification]
#[verifier::external_body]
pub struct ExUtf8Error(std::str::Utf8Error);

#[verifier::external_type_specification]
#[verifier::external_body]
pub struct ExUrlParseError(url::ParseError);

#[verifier::external_type_specification]
#[verifier::external_body]
pub struct ExJsonError(serde_json::Error);

/// Why a request was refused.
#[derive(Debug)]
pub enum SimpleError {
    /// A null-terminated string is not UTF-8.
    CString,
    /// A string slice is not UTF-8.
    Utf8(std::str::Utf8Error),
    /// An array of string slices is missing although its length is not zero.
    NullStrings,
    /// The array of columns is missing although its length is not zero.
    NullFields,
    /// Configuration keys and values differ in number.
    ConfigurationLengths,
    /// A file size does not fit a 64-bit signed integer.
    Size,
    /// The table root does not parse as a URL.
    Root(url::ParseError),
    /// The commit file does not resolve against the table root.
    Commit(url::ParseError),
    /// The table schema does not serialize.
    Json(serde_json::Error),
    /// Arrow refused to build an array, a schema or a batch.
    Arrow(ArrowError),
}

/// An error as contracts speak of it. What the decoder and the URL parser reported is part of it.
/// What Arrow reported is not, since its words list a field's metadata in no fixed order, nor what
/// the JSON writer reported, which never fails here.
pub ghost enum ErrorKind {
    CString,
    Utf8(std::str::Utf8Error),
    NullStrings,
    NullFields,
    ConfigurationLengths,
    Size,
    Root(url::ParseError),
    Commit(url::ParseError),
    Json,
    Arrow,
}

impl View for SimpleError {
    type V = ErrorKind;

    open spec fn view(&self) -> ErrorKind {
        match self {
            SimpleError::CString => ErrorKind::CString,
            SimpleError::Utf8(e) => ErrorKind::Utf8(*e),
            SimpleError::NullStrings => ErrorKind::NullStrings,
            SimpleError::NullFields => ErrorKind::NullFields,
            SimpleError::ConfigurationLengths => ErrorKind::ConfigurationLengths,
            SimpleError::Size => ErrorKind::Size,
            SimpleError::Root(e) => ErrorKind::Root(*e),
            SimpleError::Commit(e) => ErrorKind::Commit(*e),
            SimpleError::Json(_) => ErrorKind::Json,
            SimpleError::Arrow(_) => ErrorKind::Arrow,
        }
    }
}

/// The text that goes with an error, for the errors that this library itself words.
pub open spec fn message_text(kind: ErrorKind) -> Option<Seq<char>> {
    match kind {
        ErrorKind::CString => Some("Failed to convert path to string"@),
        ErrorKind::NullStrings => Some("received null pointer for string slice array"@),
        ErrorKind::NullFields => Some(
            "simple schema pointer must not be null when field count is non-zero"@,
        ),
        ErrorKind::ConfigurationLengths => Some(
            "configuration keys and values arrays must have the same length"@,
        ),
        ErrorKind::Size => Some("Failed to convert size to i64"@),
        ErrorKind::Root(_) => Some("failed to normalize table root"@),
        ErrorKind::Commit(_) => Some("failed to resolve commit file"@),
        ErrorKind::Utf8(_) | ErrorKind::Json | ErrorKind::Arrow => None,
    }
}

impl SimpleError {
    /// What to tell the caller, where this library words the error. The errors that a text
    /// decoder, the JSON writer or Arrow reported speak for themselves.
    ///
    /// For [`SimpleError::Root`] and [`SimpleError::Commit`] the text is followed by what they carry.
    pub fn message(&self) -> (message: Option<&'static str>)
        ensures
            match message {
                Some(text) => message_text(self@) == Some(text@),
                None => message_text(self@) is None,
            },
    {
        match self {
            SimpleError::CString => Some("Failed to convert path to string"),
            SimpleError::NullStrings => Some("received null pointer for string slice array"),
            SimpleError::NullFields => Some(
                "simple schema pointer must not be null when field count is non-zero",
            ),
            SimpleError::ConfigurationLengths => Some(
                "configuration keys and values arrays must have the same length",
            ),
            SimpleError::Size => Some("Failed to convert size to i64"),
            SimpleError::Root(_) => Some("failed to normalize table root"),
            SimpleError::Commit(_) => Some("failed to resolve commit file"),
            SimpleError::Utf8(_) | SimpleError::Json(_) | SimpleError::Arrow(_) => None,
        }
    }
}

} // verus!
