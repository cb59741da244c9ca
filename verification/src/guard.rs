//! The guard: a wrapper around a value that is read from, or written as, a
//! form.

use crate::codec::{decode_text, encode_value, is_form_text};
use crate::error::{parse_failure, status_of, truncation, Error, ErrorView};
use crate::limits::{effective_limit, spec_effective_limit, DEFAULT_LIMIT};
use crate::reader::{bounded_text, read_bounded};
use crate::status::Status;
use serde_urlencoded::de::Error as DecodeError;
use serde_urlencoded::ser::Error as EncodeError;
use vstd::prelude::*;
use vstd::utf8::{decode_utf8, valid_utf8};

verus! {

/// The content type of a form body.
pub const FORM_CONTENT_TYPE: &'static str = "application/x-www-form-urlencoded";

/// A value that travels as `application/x-www-form-urlencoded`.
///
/// On the way in, `T` is read from the text of a body or of a single field
/// with `serde`, so `T` may be anything that `serde` can read from a flat
/// list of keys and values, an internally tagged enumeration among them. On
/// the way out, the value is written as such a list.
#[derive(Debug, Clone, PartialEq, Eq, PartialOrd, Ord, Hash)]
pub struct UrlEncoded<T>(pub T);

/// A response body with its content type.
#[derive(Debug)]
pub struct FormBody {
    /// The content type to send the body with.
    pub content_type: &'static str,
    /// The value as the text of a form.
    pub body: String,
}

/// How a decode ended, as the framework is told: a value, or an error with
/// the status that answers it.
#[derive(Debug)]
pub enum Outcome<T> {
    /// The body was read and decoded.
    Success(UrlEncoded<T>),
    /// The body was not read, or not decoded.
    Failure(Status, Error),
}

/// A result of the guard with the strings of its error as sequences of
/// characters.
pub open spec fn result_view<T>(result: Result<UrlEncoded<T>, Error>) -> Result<
    UrlEncoded<T>,
    ErrorView,
> {
    match result {
        Ok(value) => Ok(value),
        Err(error) => Err(error@),
    }
}

/// What a decode of text that is at hand comes to, where the codec answers
/// `decoded` to `raw_text`: the value wrapped, or a parse failure that
/// carries the text and the codec's error. No limit has a say in it.
pub open spec fn field_outcome<T>(raw_text: Seq<char>, decoded: Result<T, DecodeError>) -> Result<
    UrlEncoded<T>,
    ErrorView,
> {
    match decoded {
        Ok(value) => Ok(UrlEncoded(value)),
        Err(cause) => Err(parse_failure(raw_text, cause)),
    }
}

/// What a decode of `body` under `limit` comes to, where the codec answers
/// `decoded` to the text of the body: the failure of the read where the body
/// is not read, and else what the decode of its text comes to.
pub open spec fn body_outcome<T>(body: Seq<u8>, limit: u64, decoded: Result<T, DecodeError>) -> Result<
    UrlEncoded<T>,
    ErrorView,
> {
    match bounded_text(body, limit) {
        Ok(text) => field_outcome(text, decoded),
        Err(failure) => Err(failure),
    }
}

/// A body longer than its limit is answered as too large and as nothing
/// else, whatever its bytes are and whatever the codec would make of them.
pub proof fn lemma_over_limit_is_too_large<T>(
    body: Seq<u8>,
    limit: u64,
    decoded: Result<T, DecodeError>,
)
    requires
        body.len() > limit,
    ensures
        body_outcome(body, limit, decoded) == Err::<UrlEncoded<T>, ErrorView>(truncation()),
        status_of(truncation()) == Status::PayloadTooLarge,
{
}

/// A body of text that the codec accepts is decoded exactly where it is
/// within its limit.
pub proof fn lemma_decoded_iff_within_limit<T>(
    body: Seq<u8>,
    limit: u64,
    decoded: Result<T, DecodeError>,
)
    requires
        valid_utf8(body),
        decoded is Ok,
    ensures
        body_outcome(body, limit, decoded) is Ok <==> body.len() <= limit,
{
}

/// A body that is read but that the codec refuses is unprocessable, however
/// short it is: it is neither a bad request nor too large.
pub proof fn lemma_malformed_is_unprocessable<T>(body: Seq<u8>, limit: u64, cause: DecodeError)
    requires
        body.len() <= limit,
        valid_utf8(body),
    ensures
        body_outcome::<T>(body, limit, Err(cause)) == Err::<UrlEncoded<T>, ErrorView>(
            parse_failure(decode_utf8(body), cause),
        ),
        status_of(parse_failure(decode_utf8(body), cause)) == Status::UnprocessableEntity,
{
}

/// Where no limit is configured, [`DEFAULT_LIMIT`] holds: a body of text
/// that the codec accepts is decoded where it has at most that many bytes,
/// and a longer body fails as cut off.
pub proof fn lemma_default_limit<T>(body: Seq<u8>, decoded: Result<T, DecodeError>)
    ensures
        spec_effective_limit(None) == DEFAULT_LIMIT,
        body.len() <= DEFAULT_LIMIT && valid_utf8(body) && decoded is Ok ==> body_outcome(
            body,
            spec_effective_limit(None),
            decoded,
        ) is Ok,
        body.len() > DEFAULT_LIMIT ==> body_outcome(body, spec_effective_limit(None), decoded)
            == Err::<UrlEncoded<T>, ErrorView>(truncation()),
{
}

/// A decode of text that is at hand goes by the codec alone: it succeeds
/// exactly where the codec does, however long the text is, and where it
/// fails it is unprocessable and never too large.
pub proof fn lemma_field_decode_has_no_limit<T>(raw_text: Seq<char>, decoded: Result<T, DecodeError>)
    ensures
        field_outcome(raw_text, decoded) is Ok <==> decoded is Ok,
        field_outcome(raw_text, decoded) matches Err(error) ==> status_of(error)
            == Status::UnprocessableEntity,
{
}

impl<T> UrlEncoded<T> {
    /// Consumes the wrapper and returns the wrapped value.
    pub fn into_inner(self) -> (inner: T)
        ensures
            inner == self.0,
    {
        self.0
    }

    /// Turns what the codec made of `raw_text` into the guard's own result:
    /// the value wrapped, or a parse failure that carries the text and the
    /// codec's error.
    pub fn from_decoded(raw_text: &str, decoded: Result<T, DecodeError>) -> (result: Result<
        Self,
        Error,
    >)
        ensures
            result_view(result) == field_outcome(raw_text@, decoded),
    {
        match decoded {
            Ok(value) => Ok(UrlEncoded(value)),
            Err(cause) => Err(Error::Parse(raw_text.to_owned(), cause)),
        }
    }
}

impl<'r, T: serde::Deserialize<'r>> UrlEncoded<T> {
    /// Decodes a value from text that is at hand already, such as the value
    /// of one field. No limit applies: whether this succeeds is for the
    /// codec alone to say, and a failure is a parse failure that carries
    /// `s`.
    pub fn from_str(s: &'r str) -> (result: Result<Self, Error>)
        ensures
            exists|decoded: Result<T, DecodeError>|
                result_view(result) == #[trigger] field_outcome(s@, decoded),
            result matches Err(error) ==> error@ is Parse && error@->raw_text == s@,
            result matches Err(error) ==> status_of(error@) == Status::UnprocessableEntity,
    {
        let decoded = decode_text(s);
        let result = Self::from_decoded(s, decoded);
        assert(result_view(result) == field_outcome(s@, decoded));
        result
    }
}

impl<T: serde::de::DeserializeOwned> UrlEncoded<T> {
    /// Decodes a body that is in memory: resolves the limit, reads the body
    /// under it, and decodes the text.
    ///
    /// A body longer than the limit fails as cut off, and one that is not
    /// text fails as such; neither reaches the codec. A failure of the codec
    /// carries the whole text of the body.
    pub fn from_data(body: &[u8], configured_limit: Option<u64>) -> (result: Result<Self, Error>)
        ensures
            exists|decoded: Result<T, DecodeError>|
                result_view(result) == #[trigger] body_outcome(
                    body@,
                    spec_effective_limit(configured_limit),
                    decoded,
                ),
            match bounded_text(body@, spec_effective_limit(configured_limit)) {
                Ok(text) => result matches Err(error) ==> error@ is Parse && error@->raw_text
                    == text,
                Err(failure) => result matches Err(error) && error@ == failure,
            },
    {
        let limit: u64 = effective_limit(configured_limit);
        match read_bounded(body, limit) {
            Ok(text) => {
                let decoded = decode_text(text.as_str());
                let result = Self::from_decoded(text.as_str(), decoded);
                assert(result_view(result) == body_outcome(body@, limit, decoded));
                result
            },
            Err(error) => {
                // The codec is not asked: the outcome is the same whatever
                // it would have answered.
                let ghost unasked: Result<T, DecodeError> = arbitrary();
                let result = Err(error);
                assert(result_view(result) == body_outcome(body@, limit, unasked));
                result
            },
        }
    }

    /// Decodes a body that is in memory and classifies the result.
    ///
    /// A body longer than the limit is answered with
    /// [`Status::PayloadTooLarge`] and nothing else, whatever its bytes are.
    /// Within the limit, a body that is not text is a
    /// [`Status::BadRequest`], and one that the codec refuses is a
    /// [`Status::UnprocessableEntity`].
    pub fn guard(body: &[u8], configured_limit: Option<u64>) -> (outcome: Outcome<T>)
        ensures
            match bounded_text(body@, spec_effective_limit(configured_limit)) {
                Ok(text) => outcome matches Outcome::Failure(status, error) ==> status
                    == Status::UnprocessableEntity && error@ is Parse && error@->raw_text == text,
                Err(failure) => outcome matches Outcome::Failure(status, error) && error@
                    == failure && status == status_of(failure),
            },
            body@.len() > spec_effective_limit(configured_limit) ==> (outcome matches Outcome::Failure(
                status,
                _,
            ) && status == Status::PayloadTooLarge),
    {
        Outcome::classify(Self::from_data(body, configured_limit))
    }
}

impl<T: serde::Serialize> UrlEncoded<T> {
    /// Writes the wrapped value as the text of a form. Whether the value can
    /// be written is for the codec to say; text that comes back holds the
    /// characters of a form and no others, so it can be sent as it is.
    pub fn encode(&self) -> (encoded: Result<String, EncodeError>)
        ensures
            encoded matches Ok(text) ==> is_form_text(text@),
    {
        encode_value(&self.0)
    }

    /// Writes the wrapped value as a response body. A value that cannot be
    /// written as a form is answered with [`Status::InternalServerError`].
    pub fn respond(self) -> (response: Result<FormBody, Status>)
        ensures
            response matches Ok(form) ==> form.content_type@ == FORM_CONTENT_TYPE@
                && is_form_text(form.body@),
            response matches Err(status) ==> status == Status::InternalServerError,
    {
        FormBody::from_encoded(self.encode())
    }
}

impl FormBody {
    /// Makes a response of what the codec wrote: the text as the body of a
    /// form, or [`Status::InternalServerError`] where there is no text. The
    /// codec's error is not passed on.
    pub fn from_encoded(encoded: Result<String, EncodeError>) -> (response: Result<FormBody, Status>)
        ensures
            match encoded {
                Ok(text) => response matches Ok(form) && form.body == text && form.content_type@
                    == FORM_CONTENT_TYPE@,
                Err(_) => response == Err::<FormBody, Status>(Status::InternalServerError),
            },
    {
        match encoded {
            Ok(text) => Ok(FormBody { content_type: FORM_CONTENT_TYPE, body: text }),
            Err(_) => Err(Status::InternalServerError),
        }
    }
}

impl<T> Outcome<T> {
    /// Classifies the result of a decode: a value passes through, an error
    /// gets the status that answers it.
    pub fn classify(result: Result<UrlEncoded<T>, Error>) -> (outcome: Self)
        ensures
            match result {
                Ok(value) => outcome == Outcome::Success(value),
                Err(error) => outcome == Outcome::<T>::Failure(status_of(error@), error),
            },
    {
        match result {
            Ok(value) => Outcome::Success(value),
            Err(error) => {
                let status = error.status();
                Outcome::Failure(status, error)
            },
        }
    }
}

impl<T> From<T> for UrlEncoded<T> {
    fn from(value: T) -> (wrapped: Self) {
        UrlEncoded(value)
    }
}

impl<T> vstd::std_specs::convert::FromSpecImpl<T> for UrlEncoded<T> {
    open spec fn obeys_from_spec() -> bool {
        true
    }

    open spec fn from_spec(value: T) -> Self {
        UrlEncoded(value)
    }
}

impl<T> std::ops::Deref for UrlEncoded<T> {
    type Target = T;

    fn deref(&self) -> (inner: &T)
        ensures
            *inner == self.0,
    {
        &self.0
    }
}

impl<T> std::ops::DerefMut for UrlEncoded<T> {
    fn deref_mut(&mut self) -> (inner: &mut T)
        ensures
            *inner == old(self).0,
            final(self).0 == *final(inner),
    {
        &mut self.0
    }
}

} // verus!
