//! The writer half of the session bridge.
//!
//! The write operation takes a text chunk from the presentation layer
//! and puts it on the pseudo-terminal master verbatim: the bytes written
//! are exactly the chunk's UTF-8 encoding — no line-ending translation,
//! no escaping, nothing added and nothing dropped.

use vstd::prelude::*;

verus! {

use vstd::string::StrSliceExecFns;
use vstd::utf8::encode_utf8;

/// The bytes the write operation puts on the wire for `data`: its UTF-8
/// encoding, unchanged.
pub fn write_to_pty_bytes(data: &str) -> (v: Vec<u8>)
    ensures
        v@ == encode_utf8(data@),
{
    data.as_bytes_vec()
}

} // verus!
