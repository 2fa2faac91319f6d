//! UTF-8 validation of buffered terminal output.
//!
//! The bridge delivers terminal output to its caller as text, and a chunk
//! of buffered bytes may be delivered only when it is a complete, valid
//! UTF-8 encoding. [`utf8_is_valid`] decides that, and is proved
//! equivalent to `vstd::utf8::valid_utf8`.

use vstd::prelude::*;

verus! {

use vstd::utf8::valid_first_scalar;
use vstd::utf8::valid_leading_and_continuation_bytes_first_codepoint;
use vstd::utf8::length_of_first_scalar;
use vstd::utf8::length_of_first_codepoint;
use vstd::utf8::decode_first_codepoint;
use vstd::utf8::not_overlong_encoding;
use vstd::utf8::not_surrogate;
use vstd::utf8::valid_utf8;
use vstd::utf8::partial_valid_utf8;
use vstd::utf8::partial_valid_utf8_extend;
use vstd::utf8::partial_valid_partial_invalid_utf8;

/// Length in bytes of the scalar encoding that starts at position `i` of
/// `v`, or `None` when no well-formed scalar encoding starts there.
fn scalar_len_at(v: &[u8], i: usize) -> (r: Option<usize>)
    requires
        i < v@.len(),
    ensures
        ({
            let s = v@.subrange(i as int, v@.len() as int);
            &&& (r is Some <==> valid_first_scalar(s))
            &&& (r matches Some(l) ==> 1 <= l && i + l <= v@.len() && l
                == length_of_first_scalar(s))
        }),
{
    let ghost s = v@.subrange(i as int, v@.len() as int);
    let n = v.len();
    let b0 = v[i];
    proof {
        assert(s.len() == n - i);
        assert(s[0] == b0);
    }
    if b0 < 0x80 {
        proof {
            assert(length_of_first_codepoint(s) == 1);
            assert((b0 & 0x7f) as u32 <= 0x7f) by (bit_vector);
            assert(not_surrogate(decode_first_codepoint(s)));
        }
        Some(1)
    } else if b0 < 0xc2 {
        proof {
            if valid_leading_and_continuation_bytes_first_codepoint(s) {
                // `b0` is in `0xc0 ..= 0xc1` (a continuation byte in lead
                // position fits no width at all), so the encoding is
                // overlong: the codepoint is below `0x80`.
                let c1 = s[1];
                assert(decode_first_codepoint(s) == (((b0 & 0x1f) as u32) << 6) | ((c1
                    & 0x3f) as u32));
                assert((((b0 & 0x1f) as u32) << 6) | ((c1 & 0x3f) as u32) < 0x80)
                    by (bit_vector)
                    requires
                        0xc0 <= b0 < 0xc2,
                ;
            }
        }
        None
    } else if b0 < 0xe0 {
        if n - i < 2 || !is_continuation(v[i + 1]) {
            None
        } else {
            proof {
                let c1 = s[1];
                let cp = decode_first_codepoint(s);
                assert(length_of_first_codepoint(s) == 2);
                assert(cp == (((b0 & 0x1f) as u32) << 6) | ((c1 & 0x3f) as u32));
                assert(0x80 <= (((b0 & 0x1f) as u32) << 6) | ((c1 & 0x3f) as u32)
                    <= 0x7ff)
                    by (bit_vector)
                    requires
                        0xc2 <= b0 < 0xe0,
                ;
                assert(not_overlong_encoding(cp, 2) && not_surrogate(cp));
            }
            Some(2)
        }
    } else if b0 < 0xf0 {
        if n - i < 3 || !is_continuation(v[i + 1]) || !is_continuation(v[i + 2]) {
            None
        } else {
            let c1 = v[i + 1];
            let c2 = v[i + 2];
            let cp: u32 = (((b0 & 0x0f) as u32) << 12) | (((c1 & 0x3f) as u32) << 6)
                | ((c2 & 0x3f) as u32);
            proof {
                assert(length_of_first_codepoint(s) == 3);
                assert(decode_first_codepoint(s) == cp);
                assert((((b0 & 0x0f) as u32) << 12) | (((c1 & 0x3f) as u32) << 6) | ((c2
                    & 0x3f) as u32) <= 0xffff) by (bit_vector);
            }
            if 0x800 <= cp && !(0xd800 <= cp && cp <= 0xdfff) {
                Some(3)
            } else {
                None
            }
        }
    } else if b0 < 0xf5 {
        if n - i < 4 || !is_continuation(v[i + 1]) || !is_continuation(v[i + 2])
            || !is_continuation(v[i + 3]) {
            None
        } else {
            let c1 = v[i + 1];
            let c2 = v[i + 2];
            let c3 = v[i + 3];
            let cp: u32 = (((b0 & 0x07) as u32) << 18) | (((c1 & 0x3f) as u32) << 12) | (((c2
                & 0x3f) as u32) << 6) | ((c3 & 0x3f) as u32);
            proof {
                assert(length_of_first_codepoint(s) == 4);
                assert(decode_first_codepoint(s) == cp);
            }
            if 0x10000 <= cp && cp <= 0x10ffff {
                Some(4)
            } else {
                None
            }
        }
    } else {
        proof {
            if valid_leading_and_continuation_bytes_first_codepoint(s) {
                // Leads of `0xf5` and above encode codepoints past the
                // Unicode range, whatever the continuation bytes hold.
                if b0 <= 0xf7 {
                    let c1 = s[1];
                    let c2 = s[2];
                    let c3 = s[3];
                    assert(decode_first_codepoint(s) == (((b0 & 0x07) as u32) << 18) | (((c1
                        & 0x3f) as u32) << 12) | (((c2 & 0x3f) as u32) << 6) | ((c3
                        & 0x3f) as u32));
                    assert((((b0 & 0x07) as u32) << 18) | (((c1 & 0x3f) as u32) << 12) | (((c2
                        & 0x3f) as u32) << 6) | ((c3 & 0x3f) as u32) > 0x10ffff)
                        by (bit_vector)
                        requires
                            0xf5 <= b0 <= 0xf7,
                    ;
                }
            }
        }
        None
    }
}

/// True when the byte has the continuation form `10xxxxxx`.
fn is_continuation(b: u8) -> (r: bool)
    ensures
        r == vstd::utf8::is_continuation_byte(b),
{
    0x80 <= b && b <= 0xbf
}

/// Decides whether the bytes form a complete, valid UTF-8 encoding.
///
/// A chunk that ends in the middle of a multi-byte scalar encoding — or
/// holds any other malformed sequence — is rejected whole; the bridge then
/// keeps the bytes buffered rather than deliver corrupt text.
pub fn utf8_is_valid(v: &[u8]) -> (b: bool)
    ensures
        b == valid_utf8(v@),
{
    let n = v.len();
    let mut i: usize = 0;
    while i < n
        invariant
            i <= n,
            n == v@.len(),
            partial_valid_utf8(v@, i as int),
        decreases n - i,
    {
        match scalar_len_at(v, i) {
            Some(l) => {
                proof {
                    partial_valid_utf8_extend(v@, i as int);
                }
                i += l;
            },
            None => {
                proof {
                    let suffix = v@.subrange(i as int, n as int);
                    assert(!valid_utf8(suffix));
                    partial_valid_partial_invalid_utf8(v@, i as int);
                }
                return false;
            },
        }
    }
    proof {
        assert(v@.subrange(0, n as int) =~= v@);
    }
    true
}

} // verus!
