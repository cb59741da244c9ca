//! The calls into `serde_urlencoded`.

use serde_urlencoded::de::Error as DecodeError;
use serde_urlencoded::ser::Error as EncodeError;
use vstd::prelude::*;

verus! {

/// `serde_urlencoded::de::Error`, the decoder's error. It is carried along
/// and printed, and never looked into.
#[verifier::external_type_specification]
#[verifier::external_body]
pub struct ExDecodeError(DecodeError);

/// `serde_urlencoded::ser::Error`, the encoder's error. It is handed to the
/// caller or dropped, and never looked into.
#[verifier::external_type_specification]
#[verifier::external_body]
pub struct ExEncodeError(EncodeError);

/// Calls `serde_urlencoded::from_str`. Nothing is claimed of what it returns:
/// that depends on how `T` reads a form.
#[verifier::external_body]
pub(crate) fn decode_text<'a, T: serde::Deserialize<'a>>(text: &'a str) -> (decoded: Result<
    T,
    DecodeError,
>) {
    serde_urlencoded::from_str(text)
}

/// Calls `serde_urlencoded::from_bytes`. Nothing is claimed of what it
/// returns: that depends on how `T` reads a form.
#[verifier::external_body]
pub(crate) fn decode_bytes<'a, T: serde::Deserialize<'a>>(bytes: &'a [u8]) -> (decoded: Result<
    T,
    DecodeError,
>) {
    serde_urlencoded::from_bytes(bytes)
}

/// Whether `c` can stand in the text of a form: an ASCII letter or digit,
/// one of `*`, `-`, `.` and `_`, which stand for themselves, a `+`, which
/// stands for a space, a `%`, which starts the escape of a byte, or one of
/// `=` and `&`, which part a key from its value and one pair from the next.
pub open spec fn is_form_char(c: char) -> bool {
    ||| 'a' <= c <= 'z'
    ||| 'A' <= c <= 'Z'
    ||| '0' <= c <= '9'
    ||| c == '*'
    ||| c == '-'
    ||| c == '.'
    ||| c == '_'
    ||| c == '+'
    ||| c == '%'
    ||| c == '='
    ||| c == '&'
}

/// Whether `text` is made of the characters of a form alone.
pub open spec fn is_form_text(text: Seq<char>) -> bool {
    forall|i: int| 0 <= i < text.len() ==> is_form_char(#[trigger] text[i])
}

/// Calls `serde_urlencoded::to_string`. Whether it succeeds, and with which
/// keys and values, depends on how `T` writes itself. What is claimed is what
/// holds of any text that comes back: the encoder starts from an empty
/// string and writes to it through `form_urlencoded`'s `append_pair` alone,
/// which puts `&` between pairs and `=` within one, and passes keys and
/// values through `byte_serialize`, so that only the characters of a form
/// reach the text.
#[verifier::external_body]
pub(crate) fn encode_value<T: serde::Serialize>(value: &T) -> (encoded: Result<
    String,
    EncodeError,
>)
    ensures
        encoded matches Ok(text) ==> is_form_text(text@),
{
    serde_urlencoded::to_string(value)
}

/// Deserializes a `T` from the bytes of a form.
///
/// This is the codec alone: no limit is enforced and the codec's own error
/// comes back. Request data belongs in a
/// [`UrlEncoded`](crate::guard::UrlEncoded).
pub fn from_slice<'a, T: serde::Deserialize<'a>>(slice: &'a [u8]) -> (decoded: Result<
    T,
    DecodeError,
>) {
    decode_bytes(slice)
}

/// Deserializes a `T` from the text of a form.
///
/// This is the codec alone: no limit is enforced and the codec's own error
/// comes back. Request data belongs in a
/// [`UrlEncoded`](crate::guard::UrlEncoded).
pub fn from_str<'a, T: serde::Deserialize<'a>>(string: &'a str) -> (decoded: Result<
    T,
    DecodeError,
>) {
    decode_text(string)
}

} // verus!
