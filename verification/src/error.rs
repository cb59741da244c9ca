//! What can go wrong while a body is read and decoded.

use crate::status::Status;
use serde_urlencoded::de::Error as DecodeError;
use vstd::prelude::*;

verus! {

/// The message of the failure that stands for a body cut off at the limit.
pub const TRUNCATION_MESSAGE: &'static str = "data limit exceeded";

/// The message of the failure that stands for a body that is not UTF-8.
pub const INVALID_TEXT_MESSAGE: &'static str = "stream did not contain valid UTF-8";

/// The kind of an I/O failure, as far as the guard tells kinds apart.
#[derive(Clone, Copy, Debug, PartialEq, Eq, Structural)]
pub enum IoKind {
    /// The source held more than the limit allows.
    UnexpectedEof,
    /// The bytes read are not text.
    InvalidData,
    /// Any other failure of the source.
    Other,
}

/// A failure to read the body.
#[derive(Debug)]
pub struct IoFailure {
    /// What kind of failure it is. The status goes by this alone.
    pub kind: IoKind,
    /// What the source said of it.
    pub message: String,
}

/// The error of a decode.
#[derive(Debug)]
pub enum Error {
    /// The body could not be read.
    Io(IoFailure),
    /// The body was read but is not a form, or not a value of the requested
    /// type. The first field is the text that was received, the second is the
    /// codec's own error.
    Parse(String, DecodeError),
}

/// An [`Error`] with its strings as sequences of characters.
pub enum ErrorView {
    Io { kind: IoKind, message: Seq<char> },
    Parse { raw_text: Seq<char>, cause: DecodeError },
}

impl View for Error {
    type V = ErrorView;

    open spec fn view(&self) -> ErrorView {
        match *self {
            Error::Io(failure) => ErrorView::Io { kind: failure.kind, message: failure.message@ },
            Error::Parse(raw_text, cause) => ErrorView::Parse { raw_text: raw_text@, cause },
        }
    }
}

/// The failure that a body longer than its limit gives.
pub open spec fn truncation() -> ErrorView {
    ErrorView::Io { kind: IoKind::UnexpectedEof, message: TRUNCATION_MESSAGE@ }
}

/// The failure that a body gives whose bytes are not UTF-8.
pub open spec fn invalid_text() -> ErrorView {
    ErrorView::Io { kind: IoKind::InvalidData, message: INVALID_TEXT_MESSAGE@ }
}

/// The failure of a body that was read as `raw_text` and that the codec
/// refused with `cause`.
pub open spec fn parse_failure(raw_text: Seq<char>, cause: DecodeError) -> ErrorView {
    ErrorView::Parse { raw_text, cause }
}

/// The status that answers an error: a body cut off at the limit is too
/// large, a parse failure is unprocessable, and every other failure to read
/// is a bad request.
pub open spec fn status_of(error: ErrorView) -> Status {
    match error {
        ErrorView::Io { kind: IoKind::UnexpectedEof, .. } => Status::PayloadTooLarge,
        ErrorView::Io { .. } => Status::BadRequest,
        ErrorView::Parse { .. } => Status::UnprocessableEntity,
    }
}

/// A parse failure is unprocessable, whatever text it carries and however
/// short that text is: it is never a bad request, and never too large.
pub proof fn lemma_parse_failure_is_unprocessable(raw_text: Seq<char>, cause: DecodeError)
    ensures
        status_of(parse_failure(raw_text, cause)) == Status::UnprocessableEntity,
        status_of(parse_failure(raw_text, cause)) != Status::BadRequest,
        status_of(parse_failure(raw_text, cause)) != Status::PayloadTooLarge,
{
}

/// Only a body cut off at the limit is too large: the status of a failure
/// to read goes by its kind alone, not by its message.
pub proof fn lemma_too_large_iff_cut_off(error: ErrorView)
    ensures
        status_of(error) == Status::PayloadTooLarge <==> error is Io && error->kind
            == IoKind::UnexpectedEof,
        status_of(error) == Status::BadRequest <==> error is Io && error->kind
            != IoKind::UnexpectedEof,
        status_of(error) != Status::InternalServerError,
{
}

/// Whether `text` is how the codec's error prints itself.
pub open spec fn prints_as(cause: DecodeError, text: String) -> bool {
    vstd::string::to_string_from_display_ensures::<DecodeError>(&cause, text)
}

impl Error {
    /// The error of a body that is longer than its limit.
    pub fn truncated() -> (error: Error)
        ensures
            error@ == truncation(),
    {
        Error::Io(IoFailure { kind: IoKind::UnexpectedEof, message: TRUNCATION_MESSAGE.to_owned() })
    }

    /// The error of a body whose bytes are not UTF-8.
    pub fn not_text() -> (error: Error)
        ensures
            error@ == invalid_text(),
    {
        Error::Io(IoFailure { kind: IoKind::InvalidData, message: INVALID_TEXT_MESSAGE.to_owned() })
    }

    /// The status that answers this error.
    pub fn status(&self) -> (status: Status)
        ensures
            status == status_of(self@),
    {
        match self {
            Error::Io(failure) => {
                if failure.kind == IoKind::UnexpectedEof {
                    Status::PayloadTooLarge
                } else {
                    Status::BadRequest
                }
            },
            Error::Parse(_, _) => Status::UnprocessableEntity,
        }
    }

    /// A line for a log: `i/o error: ` and the failure's message, or
    /// `parse error: ` and the codec's error as it prints itself.
    pub fn describe(&self) -> (text: String)
        ensures
            match *self {
                Error::Io(failure) => text@ == "i/o error: "@ + failure.message@,
                Error::Parse(_, cause) => exists|printed: String|
                    prints_as(cause, printed) && text@ == "parse error: "@ + printed@,
            },
    {
        match self {
            Error::Io(failure) => "i/o error: ".to_owned().concat(failure.message.as_str()),
            Error::Parse(_, cause) => {
                let printed = cause.to_string();
                assert(prints_as(*cause, printed));
                "parse error: ".to_owned().concat(printed.as_str())
            },
        }
    }
}

} // verus!
