//! Reading a body up to a limit.
//!
//! A [`BoundedReader`] takes the body piece by piece, as the source hands it
//! over, and never holds more than the limit allows. Whoever drives it feeds
//! pieces while [`BoundedReader::wants_more`] says so and the source has
//! any, and then calls [`BoundedReader::finish`].

use crate::error::{invalid_text, truncation, Error, ErrorView};
use vstd::prelude::*;
use vstd::utf8::{decode_utf8, encode_utf8, valid_utf8};

verus! {

/// What reading `source` under `limit` comes to: the failure of a body cut
/// off where the source is longer than the limit, whatever its bytes are;
/// else the text that the bytes spell, or the failure of a body that is no
/// text.
pub open spec fn bounded_text(source: Seq<u8>, limit: u64) -> Result<Seq<char>, ErrorView> {
    if source.len() > limit {
        Err(truncation())
    } else if valid_utf8(source) {
        Ok(decode_utf8(source))
    } else {
        Err(invalid_text())
    }
}

/// Text whose bytes fit the limit is read back as it is.
pub proof fn lemma_text_within_limit_is_read(text: Seq<char>, limit: u64)
    requires
        encode_utf8(text).len() <= limit,
    ensures
        bounded_text(encode_utf8(text), limit) == Ok::<Seq<char>, ErrorView>(text),
{
    vstd::utf8::encode_utf8_valid_utf8(text);
    vstd::utf8::encode_utf8_decode_utf8(text);
}

/// Once a body is too long it stays so, whatever follows: a reader that
/// wants no more has lost nothing by stopping.
pub proof fn lemma_cut_off_is_final(source: Seq<u8>, more: Seq<u8>, limit: u64)
    requires
        source.len() > limit,
    ensures
        bounded_text(source + more, limit) == bounded_text(source, limit),
{
}

/// The result of a read with its strings as sequences of characters.
pub open spec fn text_view(read: Result<String, Error>) -> Result<Seq<char>, ErrorView> {
    match read {
        Ok(text) => Ok(text@),
        Err(error) => Err(error@),
    }
}

/// Calls `String::from_utf8`, which gives the text that the bytes spell, and
/// gives none exactly where the bytes are not UTF-8.
#[verifier::external_body]
fn text_from_utf8(bytes: Vec<u8>) -> (text: Option<String>)
    ensures
        text is Some <==> valid_utf8(bytes@),
        text matches Some(text) ==> encode_utf8(text@) == bytes@,
{
    match String::from_utf8(bytes) {
        Ok(text) => Some(text),
        Err(_) => None,
    }
}

/// A reader that keeps at most `limit` bytes of what it is fed.
pub struct BoundedReader {
    limit: u64,
    buffer: Vec<u8>,
    truncated: bool,
    received: Ghost<Seq<u8>>,
}

impl BoundedReader {
    /// The most bytes that a body may have.
    pub closed spec fn limit(&self) -> u64 {
        self.limit
    }

    /// All the bytes that the reader was fed, in order.
    pub closed spec fn received(&self) -> Seq<u8> {
        self.received@
    }

    /// The bytes that the reader holds in memory.
    pub closed spec fn held(&self) -> Seq<u8> {
        self.buffer@
    }

    #[verifier::type_invariant]
    spec fn well_formed(&self) -> bool {
        &&& self.truncated <==> self.received@.len() > self.limit
        &&& self.truncated ==> self.buffer@.len() == 0
        &&& !self.truncated ==> self.buffer@ == self.received@
    }

    /// A reader that has seen nothing yet.
    pub fn new(limit: u64) -> (reader: Self)
        ensures
            reader.limit() == limit,
            reader.received() == Seq::<u8>::empty(),
            reader.held() == Seq::<u8>::empty(),
    {
        BoundedReader { limit, buffer: Vec::new(), truncated: false, received: Ghost(Seq::empty()) }
    }

    /// Takes the next piece of the body. Up to the limit the reader holds
    /// all that it was fed; past the limit it holds nothing.
    pub fn accept(self, chunk: &[u8]) -> (next: Self)
        ensures
            next.limit() == self.limit(),
            next.received() == self.received() + chunk@,
            next.held() == if next.received().len() <= next.limit() {
                next.received()
            } else {
                Seq::<u8>::empty()
            },
    {
        proof {
            use_type_invariant(&self);
        }
        let BoundedReader { limit, buffer, truncated, received } = self;
        let ghost seen = received@ + chunk@;
        if truncated {
            return BoundedReader { limit, buffer, truncated, received: Ghost(seen) };
        }
        let room: u64 = limit - buffer.len() as u64;
        if chunk.len() as u64 <= room {
            let mut buffer = buffer;
            buffer.extend_from_slice(chunk);
            assert(buffer@ =~= seen);
            BoundedReader { limit, buffer, truncated: false, received: Ghost(seen) }
        } else {
            BoundedReader { limit, buffer: Vec::new(), truncated: true, received: Ghost(seen) }
        }
    }

    /// Whether another piece can still be part of a body within the limit.
    /// Once this is `false` the body is too long, whatever follows.
    pub fn wants_more(&self) -> (more: bool)
        ensures
            more == (self.received().len() <= self.limit()),
    {
        proof {
            use_type_invariant(self);
        }
        !self.truncated
    }

    /// Ends the read, the source having no more to give: the text of the
    /// body, or why there is none.
    pub fn finish(self) -> (read: Result<String, Error>)
        ensures
            text_view(read) == bounded_text(self.received(), self.limit()),
    {
        proof {
            use_type_invariant(&self);
        }
        if self.truncated {
            return Err(Error::truncated());
        }
        match text_from_utf8(self.buffer) {
            Some(text) => {
                proof {
                    vstd::utf8::encode_utf8_decode_utf8(text@);
                }
                Ok(text)
            },
            None => Err(Error::not_text()),
        }
    }
}

/// Reads a body that is in memory already, under `limit`.
pub fn read_bounded(source: &[u8], limit: u64) -> (read: Result<String, Error>)
    ensures
        text_view(read) == bounded_text(source@, limit),
{
    let reader = BoundedReader::new(limit).accept(source);
    assert(reader.received() == source@);
    reader.finish()
}

} // verus!
