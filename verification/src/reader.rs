//! The reader half of the session bridge.
//!
//! A [`SessionReader`] owns the terminal output that has arrived from the
//! pseudo-terminal master but has not yet been delivered to the caller.
//! The host feeds raw bytes in with [`SessionReader::feed`] as they are
//! read from the master, and the presentation layer polls
//! [`SessionReader::read_from_pty`], which drains the buffer in whole
//! chunks: a chunk leaves the buffer exactly when it is delivered as
//! valid text, so no byte is ever delivered twice and no byte is ever
//! dropped on a failed decode.

use vstd::prelude::*;

verus! {

use vstd::string::StringSliceAdditionalSpecFns;
use vstd::string::StringExecFns;
use vstd::utf8::valid_utf8;
use vstd::utf8::decode_utf8;
use vstd::utf8::encode_utf8;
use vstd::utf8::encode_utf8_valid_utf8;
use vstd::utf8::encode_utf8_decode_utf8;
use vstd::utf8::encode_utf8_first_scalar;
use crate::decode::utf8_is_valid;

/// Failure of a poll: the buffered bytes do not currently form valid
/// UTF-8 text (typically a multi-byte character split across reads).
/// The bytes stay buffered; the same poll succeeds once the rest of the
/// character arrives.
#[derive(Clone, Copy, PartialEq, Eq, Structural, Debug)]
pub struct DecodeError;

/// True when a poll of a reader whose buffer holds `buf` delivers a
/// chunk: there is something to deliver and it decodes cleanly.
pub open spec fn read_would_deliver(buf: Seq<u8>) -> bool {
    buf.len() > 0 && valid_utf8(buf)
}

/// The buffer contents after one poll of a reader whose buffer holds
/// `buf`: emptied exactly when a chunk was delivered.
pub open spec fn pending_after_read(buf: Seq<u8>) -> Seq<u8> {
    if read_would_deliver(buf) {
        Seq::empty()
    } else {
        buf
    }
}

/// Relies on std's `str::from_utf8`: on bytes that form a valid UTF-8
/// encoding it returns `Ok`, and the returned `str` views exactly those
/// bytes.
#[verifier::external_body]
fn utf8_to_str(v: &[u8]) -> (r: &str)
    requires
        valid_utf8(v@),
    ensures
        r.spec_bytes() == v@,
{
    match std::str::from_utf8(v) {
        Ok(s) => s,
        Err(_) => "",
    }
}

/// The buffered byte source of the session: terminal output that has
/// been read from the master end but not yet handed to the caller.
pub struct SessionReader {
    pending: Vec<u8>,
}

impl View for SessionReader {
    type V = Seq<u8>;

    closed spec fn view(&self) -> Seq<u8> {
        self.pending@
    }
}

impl SessionReader {
    /// A reader with nothing buffered yet.
    pub fn new() -> (r: SessionReader)
        ensures
            r@ == Seq::<u8>::empty(),
    {
        SessionReader { pending: Vec::new() }
    }

    /// Appends bytes read from the pseudo-terminal master to the buffer,
    /// verbatim and in order.
    pub fn feed(&mut self, chunk: &[u8])
        ensures
            final(self)@ == old(self)@ + chunk@,
    {
        self.pending.extend_from_slice(chunk);
    }

    /// One poll of the session's output, the read operation of the
    /// bridge: a best-effort drain of what has already arrived.
    ///
    /// With an empty buffer it reports "no data yet" (`Ok(None)`, not an
    /// error). When the buffer decodes as UTF-8 it delivers the whole
    /// buffer as text and marks it consumed. Otherwise it fails with
    /// [`DecodeError`] and consumes nothing, so the very same bytes are
    /// still there for the next poll.
    pub fn read_from_pty(&mut self) -> (r: Result<Option<String>, DecodeError>)
        ensures
            final(self)@ == pending_after_read(old(self)@),
            old(self)@.len() == 0 ==> (r matches Ok(c) && c is None),
            read_would_deliver(old(self)@) ==> (r matches Ok(c) && c matches Some(s) && s@
                == decode_utf8(old(self)@)),
            old(self)@.len() > 0 && !valid_utf8(old(self)@) ==> r is Err,
    {
        if self.pending.len() == 0 {
            return Ok(None);
        }
        if utf8_is_valid(self.pending.as_slice()) {
            let text = String::from_str(utf8_to_str(self.pending.as_slice()));
            proof {
                // `text` views the same bytes as the buffer, so decoding
                // the buffer gives back exactly `text`'s characters.
                encode_utf8_decode_utf8(text@);
            }
            self.pending.clear();
            Ok(Some(text))
        } else {
            Err(DecodeError)
        }
    }
}

/// No double delivery: a poll that delivers a chunk leaves an empty
/// buffer behind, so an immediately following poll has nothing of that
/// chunk left to deliver again.
pub proof fn lemma_no_double_delivery(buf: Seq<u8>)
    requires
        read_would_deliver(buf),
    ensures
        pending_after_read(buf).len() == 0,
        !read_would_deliver(pending_after_read(buf)),
{
}

/// Split-codepoint safety: while the buffered bytes do not yet decode —
/// as when only the leading byte of a multi-byte character has arrived —
/// a poll consumes nothing; and once the remaining bytes arrive, a poll
/// delivers the text of the completed whole, first byte included.
pub proof fn lemma_split_codepoint_recovery(early: Seq<u8>, rest: Seq<u8>)
    requires
        early.len() > 0,
        !valid_utf8(early),
        valid_utf8(early + rest),
    ensures
        pending_after_read(early) == early,
        read_would_deliver(pending_after_read(early) + rest),
        decode_utf8(pending_after_read(early) + rest) == decode_utf8(early + rest),
{
    assert((early + rest).len() > 0);
}

/// Write/read round trip: the writer puts a text chunk on the wire as
/// exactly its UTF-8 bytes, and a reader that has buffered exactly those
/// bytes back (say, echoed by the shell) delivers that same text.
pub proof fn lemma_write_read_round_trip(text: Seq<char>)
    requires
        text.len() > 0,
    ensures
        read_would_deliver(encode_utf8(text)),
        decode_utf8(encode_utf8(text)) == text,
{
    encode_utf8_valid_utf8(text);
    encode_utf8_decode_utf8(text);
    encode_utf8_first_scalar(text);
}

} // verus!
