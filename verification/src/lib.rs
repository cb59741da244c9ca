//! A guard for `application/x-www-form-urlencoded` payloads.
//!
//! The guard reads a body up to a size limit, turns the bytes into text, hands
//! the text to `serde_urlencoded`, and classifies every way this can go wrong
//! as one of a few HTTP statuses. In the other direction it encodes a typed
//! value into a form body. Enumerations and other types that `serde` can
//! describe, but that a plain form parser cannot, pass through unchanged.

pub mod codec;
pub mod error;
pub mod guard;
pub mod limits;
pub mod reader;
pub mod status;

pub use crate::codec::{from_slice, from_str};
pub use crate::error::{Error, IoFailure, IoKind};
pub use crate::guard::{FormBody, Outcome, UrlEncoded};
pub use crate::status::Status;
