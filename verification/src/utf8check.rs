//! Validation of the secret byte run as UTF-8 text.
//!
//! The contracts are stated against the UTF-8 model in `vstd::utf8`:
//! a run of bytes is text exactly when `valid_utf8` holds of it, and a
//! rejected run comes with the byte position where decoding failed.

use vstd::prelude::*;
use vstd::utf8::codepoint_width_2;
use vstd::utf8::codepoint_width_3;
use vstd::utf8::codepoint_width_4;
use vstd::utf8::decode_first_codepoint;
use vstd::utf8::is_continuation_byte;
use vstd::utf8::length_of_first_codepoint;
use vstd::utf8::length_of_first_scalar;
use vstd::utf8::not_overlong_encoding;
use vstd::utf8::not_surrogate;
use vstd::utf8::partial_valid_partial_invalid_utf8;
use vstd::utf8::partial_valid_utf8;
use vstd::utf8::partial_valid_utf8_extend;
use vstd::utf8::valid_first_scalar;
use vstd::utf8::valid_leading_and_continuation_bytes_first_codepoint;
use vstd::utf8::valid_utf8;

verus! {

/// True when decoding the byte run `s` fails exactly at position `p`:
/// everything before `p` is a valid UTF-8 encoding, and no well-formed
/// scalar encoding starts at `p`.
pub open spec fn utf8_error_at(s: Seq<u8>, p: int) -> bool {
    &&& 0 <= p < s.len()
    &&& partial_valid_utf8(s, p)
    &&& !valid_first_scalar(s.subrange(p, s.len() as int))
}

/// Width in bytes of the well-formed scalar encoding starting at position
/// `i` of `bytes[..n]`, or 0 when no well-formed encoding starts there.
fn scalar_width_at(bytes: &[u8], n: usize, i: usize) -> (w: usize)
    requires
        i < n,
        n <= bytes@.len(),
    ensures
        ({
            let s = bytes@.subrange(i as int, n as int);
            &&& (w == 0 ==> !valid_first_scalar(s))
            &&& (w != 0 ==> valid_first_scalar(s) && w == length_of_first_scalar(s) && i + w
                <= n)
        }),
{
    let ghost s = bytes@.subrange(i as int, n as int);
    let rem = n - i;
    let b0 = bytes[i];
    proof {
        assert(s.len() == n - i);
        assert(s[0] == b0);
    }
    if b0 < 0x80 {
        // One-byte form: the byte is the whole scalar.
        proof {
            assert(valid_first_scalar(s));
            assert(length_of_first_scalar(s) == 1);
        }
        return 1;
    }
    if b0 < 0xc2 {
        // Either a continuation byte with no leading byte before it, or a
        // two-byte leading byte whose only decodings are overlong.
        proof {
            if valid_leading_and_continuation_bytes_first_codepoint(s) {
                assert(0xc0 <= b0 <= 0xc1);
                assert(s.len() >= 2 && is_continuation_byte(s[1]));
                let b1 = s[1];
                let c = decode_first_codepoint(s);
                assert(c == codepoint_width_2(b0, b1));
                assert((((b0 & 0x1f) as u32) << 6) | ((b1 & 0x3f) as u32) < 0x80)
                    by (bit_vector)
                    requires
                        0xc0 <= b0 <= 0xc1,
                ;
                assert(!not_overlong_encoding(c, length_of_first_codepoint(s)));
            }
            assert(!valid_first_scalar(s));
        }
        return 0;
    }
    if b0 <= 0xdf {
        // Two-byte form.
        if rem < 2 {
            proof {
                assert(!valid_first_scalar(s));
            }
            return 0;
        }
        let b1 = bytes[i + 1];
        proof {
            assert(s[1] == b1);
        }
        if !(0x80 <= b1 && b1 <= 0xbf) {
            proof {
                assert(!valid_first_scalar(s));
            }
            return 0;
        }
        proof {
            let c = decode_first_codepoint(s);
            assert(c == codepoint_width_2(b0, b1));
            assert(0x80 <= ((((b0 & 0x1f) as u32) << 6) | ((b1 & 0x3f) as u32)) < 0xd800)
                by (bit_vector)
                requires
                    0xc2 <= b0 <= 0xdf,
            ;
            assert(valid_first_scalar(s));
            assert(length_of_first_scalar(s) == 2);
        }
        return 2;
    }
    if b0 <= 0xef {
        // Three-byte form.
        if rem < 3 {
            proof {
                assert(!valid_first_scalar(s));
            }
            return 0;
        }
        let b1 = bytes[i + 1];
        let b2 = bytes[i + 2];
        proof {
            assert(s[1] == b1);
            assert(s[2] == b2);
        }
        if !(0x80 <= b1 && b1 <= 0xbf) || !(0x80 <= b2 && b2 <= 0xbf) {
            proof {
                assert(!valid_first_scalar(s));
            }
            return 0;
        }
        if b0 == 0xe0 && b1 < 0xa0 {
            // Overlong: the value fits a two-byte encoding.
            proof {
                let c = decode_first_codepoint(s);
                assert(c == codepoint_width_3(b0, b1, b2));
                assert(((((b0 & 0x0f) as u32) << 12) | (((b1 & 0x3f) as u32) << 6) | ((b2
                    & 0x3f) as u32)) < 0x800)
                    by (bit_vector)
                    requires
                        b0 == 0xe0,
                        0x80 <= b1 < 0xa0,
                ;
                assert(!not_overlong_encoding(c, length_of_first_codepoint(s)));
                assert(!valid_first_scalar(s));
            }
            return 0;
        }
        if b0 == 0xed && b1 > 0x9f {
            // The value falls in the surrogate range.
            proof {
                let c = decode_first_codepoint(s);
                assert(c == codepoint_width_3(b0, b1, b2));
                assert(0xd800 <= ((((b0 & 0x0f) as u32) << 12) | (((b1 & 0x3f) as u32) << 6) | ((
                b2 & 0x3f) as u32)) <= 0xdfff)
                    by (bit_vector)
                    requires
                        b0 == 0xed,
                        0xa0 <= b1 <= 0xbf,
                        0x80 <= b2 <= 0xbf,
                ;
                assert(!not_surrogate(c));
                assert(!valid_first_scalar(s));
            }
            return 0;
        }
        proof {
            let c = decode_first_codepoint(s);
            assert(c == codepoint_width_3(b0, b1, b2));
            assert(0x800 <= ((((b0 & 0x0f) as u32) << 12) | (((b1 & 0x3f) as u32) << 6) | ((b2
                & 0x3f) as u32)) <= 0xffff)
                by (bit_vector)
                requires
                    0xe0 <= b0 <= 0xef,
                    b0 == 0xe0 ==> 0xa0 <= b1,
                    0x80 <= b1 <= 0xbf,
                    0x80 <= b2 <= 0xbf,
            ;
            assert(!(0xd800 <= ((((b0 & 0x0f) as u32) << 12) | (((b1 & 0x3f) as u32) << 6) | ((b2
                & 0x3f) as u32)) <= 0xdfff))
                by (bit_vector)
                requires
                    0xe0 <= b0 <= 0xef,
                    b0 == 0xed ==> b1 <= 0x9f,
                    0x80 <= b1 <= 0xbf,
                    0x80 <= b2 <= 0xbf,
            ;
            assert(valid_first_scalar(s));
            assert(length_of_first_scalar(s) == 3);
        }
        return 3;
    }
    if b0 <= 0xf4 {
        // Four-byte form.
        if rem < 4 {
            proof {
                assert(!valid_first_scalar(s));
            }
            return 0;
        }
        let b1 = bytes[i + 1];
        let b2 = bytes[i + 2];
        let b3 = bytes[i + 3];
        proof {
            assert(s[1] == b1);
            assert(s[2] == b2);
            assert(s[3] == b3);
        }
        if !(0x80 <= b1 && b1 <= 0xbf) || !(0x80 <= b2 && b2 <= 0xbf) || !(0x80 <= b3 && b3
            <= 0xbf) {
            proof {
                assert(!valid_first_scalar(s));
            }
            return 0;
        }
        if b0 == 0xf0 && b1 < 0x90 {
            // Overlong: the value fits a three-byte encoding.
            proof {
                let c = decode_first_codepoint(s);
                assert(c == codepoint_width_4(b0, b1, b2, b3));
                assert(((((b0 & 0x07) as u32) << 18) | (((b1 & 0x3f) as u32) << 12) | (((b2
                    & 0x3f) as u32) << 6) | ((b3 & 0x3f) as u32)) < 0x10000)
                    by (bit_vector)
                    requires
                        b0 == 0xf0,
                        0x80 <= b1 < 0x90,
                ;
                assert(!not_overlong_encoding(c, length_of_first_codepoint(s)));
                assert(!valid_first_scalar(s));
            }
            return 0;
        }
        if b0 == 0xf4 && b1 > 0x8f {
            // The value is past the last scalar.
            proof {
                let c = decode_first_codepoint(s);
                assert(c == codepoint_width_4(b0, b1, b2, b3));
                assert(((((b0 & 0x07) as u32) << 18) | (((b1 & 0x3f) as u32) << 12) | (((b2
                    & 0x3f) as u32) << 6) | ((b3 & 0x3f) as u32)) > 0x10ffff)
                    by (bit_vector)
                    requires
                        b0 == 0xf4,
                        0x90 <= b1 <= 0xbf,
                ;
                assert(!not_overlong_encoding(c, length_of_first_codepoint(s)));
                assert(!valid_first_scalar(s));
            }
            return 0;
        }
        proof {
            let c = decode_first_codepoint(s);
            assert(c == codepoint_width_4(b0, b1, b2, b3));
            assert(0x10000 <= ((((b0 & 0x07) as u32) << 18) | (((b1 & 0x3f) as u32) << 12) | (((
            b2 & 0x3f) as u32) << 6) | ((b3 & 0x3f) as u32)) <= 0x10ffff)
                by (bit_vector)
                requires
                    0xf0 <= b0 <= 0xf4,
                    b0 == 0xf0 ==> 0x90 <= b1,
                    b0 == 0xf4 ==> b1 <= 0x8f,
                    0x80 <= b1 <= 0xbf,
                    0x80 <= b2 <= 0xbf,
                    0x80 <= b3 <= 0xbf,
            ;
            assert(valid_first_scalar(s));
            assert(length_of_first_scalar(s) == 4);
        }
        return 4;
    }
    // 0xf5 through 0xf7 only lead encodings of values past the last scalar;
    // 0xf8 and above match no leading-byte pattern at all.
    proof {
        if valid_leading_and_continuation_bytes_first_codepoint(s) {
            assert(0xf5 <= b0 <= 0xf7);
            assert(s.len() >= 4 && is_continuation_byte(s[1]) && is_continuation_byte(s[2])
                && is_continuation_byte(s[3]));
            let b1 = s[1];
            let b2 = s[2];
            let b3 = s[3];
            let c = decode_first_codepoint(s);
            assert(c == codepoint_width_4(b0, b1, b2, b3));
            assert(((((b0 & 0x07) as u32) << 18) | (((b1 & 0x3f) as u32) << 12) | (((b2
                & 0x3f) as u32) << 6) | ((b3 & 0x3f) as u32)) > 0x10ffff)
                by (bit_vector)
                requires
                    0xf5 <= b0 <= 0xf7,
            ;
            assert(!not_overlong_encoding(c, length_of_first_codepoint(s)));
        }
        assert(!valid_first_scalar(s));
    }
    0
}

/// Check whether the first `n` bytes of `bytes` are a valid UTF-8 encoding.
///
/// On failure the returned position is where decoding stopped: the bytes
/// before it are valid UTF-8 and no well-formed scalar encoding starts at it.
pub fn validate_utf8(bytes: &[u8], n: usize) -> (r: Result<(), usize>)
    requires
        n <= bytes@.len(),
    ensures
        ({
            let s = bytes@.subrange(0, n as int);
            match r {
                Ok(()) => valid_utf8(s),
                Err(p) => !valid_utf8(s) && utf8_error_at(s, p as int),
            }
        }),
{
    let ghost s = bytes@.subrange(0, n as int);
    let mut i: usize = 0;
    while i < n
        invariant
            i <= n,
            n <= bytes@.len(),
            s == bytes@.subrange(0, n as int),
            partial_valid_utf8(s, i as int),
        decreases n - i,
    {
        let w = scalar_width_at(bytes, n, i);
        proof {
            assert(s.subrange(i as int, s.len() as int) =~= bytes@.subrange(i as int, n as int));
        }
        if w == 0 {
            proof {
                assert(!valid_utf8(s.subrange(i as int, s.len() as int)));
                partial_valid_partial_invalid_utf8(s, i as int);
            }
            return Err(i);
        }
        proof {
            partial_valid_utf8_extend(s, i as int);
        }
        i = i + w;
    }
    proof {
        assert(s.subrange(0, n as int) =~= s);
    }
    Ok(())
}

} // verus!
