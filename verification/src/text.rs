//! Byte-level UTF-8 validation for the record's URI field.
//!
//! The URI is text: the host stores it as UTF-8 bytes, and decoding rejects
//! a buffer whose URI field is not a well-formed UTF-8 encoding.  The
//! checker here is verified against vstd's `valid_utf8` predicate, the same
//! predicate vstd's specification of `str::from_utf8_unchecked` relies on.

use vstd::prelude::*;
use vstd::utf8::*;

verus! {

/// Classifies the first UTF-8 scalar of `bytes` from position `i` on:
/// `Some` of its width in bytes when it is well formed, `None` otherwise.
fn first_scalar_width(bytes: &[u8], i: usize) -> (result: Option<usize>)
    requires
        i < bytes@.len(),
    ensures
        result matches Some(w) ==> 1 <= w <= 4 && i + w <= bytes@.len() && valid_first_scalar(
            bytes@.skip(i as int),
        ) && length_of_first_scalar(bytes@.skip(i as int)) == w,
        result is None ==> !valid_first_scalar(bytes@.skip(i as int)),
{
    let ghost s = bytes@.skip(i as int);
    let n = bytes.len();
    let b0 = bytes[i];
    proof {
        assert(s[0] == b0);
    }
    // One byte: 0xxxxxxx.
    if b0 <= 0x7f {
        proof {
            assert(b0 & 0x7f <= 0x7f) by (bit_vector);
            assert(valid_first_scalar(s));
        }
        return Some(1);
    }
    // Stray continuation bytes cannot lead, and 0xc0/0xc1 would only begin
    // overlong encodings of one-byte scalars.
    if b0 < 0xc2 {
        proof {
            if 0xc0 <= b0 {
                let g1 = s[1];
                assert((((b0 & 0x1f) as u32) << 6 | ((g1 & 0x3f) as u32)) < 0x80) by (bit_vector)
                    requires
                        0xc0 <= b0 <= 0xc1,
                ;
            }
            assert(!valid_first_scalar(s));
        }
        return None;
    }
    // Two bytes: 110xxxxx 10xxxxxx.
    if b0 <= 0xdf {
        if n - i < 2 {
            proof {
                assert(!valid_first_scalar(s));
            }
            return None;
        }
        let b1 = bytes[i + 1];
        proof {
            assert(s[1] == b1);
        }
        if b1 < 0x80 || b1 > 0xbf {
            proof {
                assert(!valid_first_scalar(s));
            }
            return None;
        }
        proof {
            assert(0x80 <= (((b0 & 0x1f) as u32) << 6 | ((b1 & 0x3f) as u32)) && (((b0
                & 0x1f) as u32) << 6 | ((b1 & 0x3f) as u32)) <= 0x7ff) by (bit_vector)
                requires
                    0xc2 <= b0 <= 0xdf && 0x80 <= b1 <= 0xbf,
            ;
            assert(valid_first_scalar(s));
            assert(length_of_first_scalar(s) == 2);
        }
        return Some(2);
    }
    // Three bytes: 1110xxxx 10xxxxxx 10xxxxxx.
    if b0 <= 0xef {
        if n - i < 3 {
            proof {
                assert(!valid_first_scalar(s));
            }
            return None;
        }
        let b1 = bytes[i + 1];
        let b2 = bytes[i + 2];
        proof {
            assert(s[1] == b1);
            assert(s[2] == b2);
        }
        // 0xe0 must not begin an overlong encoding, and 0xed must not
        // encode a surrogate.
        let b1_lo: u8 = if b0 == 0xe0 {
            0xa0
        } else {
            0x80
        };
        let b1_hi: u8 = if b0 == 0xed {
            0x9f
        } else {
            0xbf
        };
        if b1 < b1_lo || b1 > b1_hi {
            proof {
                if is_continuation_byte(b1) {
                    if b0 == 0xe0 {
                        assert(((((b0 & 0x0f) as u32) << 12) | (((b1 & 0x3f) as u32) << 6) | ((b2
                            & 0x3f) as u32)) < 0x800) by (bit_vector)
                            requires
                                b0 == 0xe0 && 0x80 <= b1 <= 0x9f,
                        ;
                    } else {
                        assert(b0 == 0xed);
                        assert(0xd800 <= ((((b0 & 0x0f) as u32) << 12) | (((b1 & 0x3f) as u32)
                            << 6) | ((b2 & 0x3f) as u32)) && ((((b0 & 0x0f) as u32) << 12) | (((b1
                            & 0x3f) as u32) << 6) | ((b2 & 0x3f) as u32)) <= 0xdfff) by (bit_vector)
                            requires
                                b0 == 0xed && 0xa0 <= b1 <= 0xbf,
                        ;
                    }
                }
                assert(!valid_first_scalar(s));
            }
            return None;
        }
        if b2 < 0x80 || b2 > 0xbf {
            proof {
                assert(!valid_first_scalar(s));
            }
            return None;
        }
        proof {
            if b0 == 0xe0 {
                assert(0x800 <= ((((b0 & 0x0f) as u32) << 12) | (((b1 & 0x3f) as u32) << 6) | ((b2
                    & 0x3f) as u32)) && ((((b0 & 0x0f) as u32) << 12) | (((b1 & 0x3f) as u32) << 6)
                    | ((b2 & 0x3f) as u32)) <= 0xfff) by (bit_vector)
                    requires
                        b0 == 0xe0 && 0xa0 <= b1 <= 0xbf && 0x80 <= b2 <= 0xbf,
                ;
            } else if b0 <= 0xec {
                assert(0x1000 <= ((((b0 & 0x0f) as u32) << 12) | (((b1 & 0x3f) as u32) << 6) | ((b2
                    & 0x3f) as u32)) && ((((b0 & 0x0f) as u32) << 12) | (((b1 & 0x3f) as u32) << 6)
                    | ((b2 & 0x3f) as u32)) <= 0xcfff) by (bit_vector)
                    requires
                        0xe1 <= b0 <= 0xec && 0x80 <= b1 <= 0xbf && 0x80 <= b2 <= 0xbf,
                ;
            } else if b0 == 0xed {
                assert(0xd000 <= ((((b0 & 0x0f) as u32) << 12) | (((b1 & 0x3f) as u32) << 6) | ((b2
                    & 0x3f) as u32)) && ((((b0 & 0x0f) as u32) << 12) | (((b1 & 0x3f) as u32) << 6)
                    | ((b2 & 0x3f) as u32)) <= 0xd7ff) by (bit_vector)
                    requires
                        b0 == 0xed && 0x80 <= b1 <= 0x9f && 0x80 <= b2 <= 0xbf,
                ;
            } else {
                assert(0xe000 <= ((((b0 & 0x0f) as u32) << 12) | (((b1 & 0x3f) as u32) << 6) | ((b2
                    & 0x3f) as u32)) && ((((b0 & 0x0f) as u32) << 12) | (((b1 & 0x3f) as u32) << 6)
                    | ((b2 & 0x3f) as u32)) <= 0xffff) by (bit_vector)
                    requires
                        0xee <= b0 <= 0xef && 0x80 <= b1 <= 0xbf && 0x80 <= b2 <= 0xbf,
                ;
            }
            assert(valid_first_scalar(s));
            assert(length_of_first_scalar(s) == 3);
        }
        return Some(3);
    }
    // 0xf5 and above would encode values past U+10FFFF, or cannot lead.
    if b0 >= 0xf5 {
        proof {
            if b0 <= 0xf7 {
                let g1 = s[1];
                let g2 = s[2];
                let g3 = s[3];
                assert(((((b0 & 0x07) as u32) << 18) | (((g1 & 0x3f) as u32) << 12) | (((g2
                    & 0x3f) as u32) << 6) | ((g3 & 0x3f) as u32)) > 0x10ffff) by (bit_vector)
                    requires
                        0xf5 <= b0 <= 0xf7,
                ;
            }
            assert(!valid_first_scalar(s));
        }
        return None;
    }
    // Four bytes: 11110xxx 10xxxxxx 10xxxxxx 10xxxxxx, 0xf0..=0xf4.
    if n - i < 4 {
        proof {
            assert(!valid_first_scalar(s));
        }
        return None;
    }
    let b1 = bytes[i + 1];
    let b2 = bytes[i + 2];
    let b3 = bytes[i + 3];
    proof {
        assert(s[1] == b1);
        assert(s[2] == b2);
        assert(s[3] == b3);
    }
    // 0xf0 must not begin an overlong encoding, and 0xf4 must not encode a
    // value past U+10FFFF.
    let b1_lo: u8 = if b0 == 0xf0 {
        0x90
    } else {
        0x80
    };
    let b1_hi: u8 = if b0 == 0xf4 {
        0x8f
    } else {
        0xbf
    };
    if b1 < b1_lo || b1 > b1_hi {
        proof {
            if is_continuation_byte(b1) {
                if b0 == 0xf0 {
                    assert(((((b0 & 0x07) as u32) << 18) | (((b1 & 0x3f) as u32) << 12) | (((b2
                        & 0x3f) as u32) << 6) | ((b3 & 0x3f) as u32)) < 0x10000) by (bit_vector)
                        requires
                            b0 == 0xf0 && 0x80 <= b1 <= 0x8f,
                    ;
                } else {
                    assert(b0 == 0xf4);
                    assert(((((b0 & 0x07) as u32) << 18) | (((b1 & 0x3f) as u32) << 12) | (((b2
                        & 0x3f) as u32) << 6) | ((b3 & 0x3f) as u32)) > 0x10ffff) by (bit_vector)
                        requires
                            b0 == 0xf4 && 0x90 <= b1 <= 0xbf,
                    ;
                }
            }
            assert(!valid_first_scalar(s));
        }
        return None;
    }
    if b2 < 0x80 || b2 > 0xbf {
        proof {
            assert(!valid_first_scalar(s));
        }
        return None;
    }
    if b3 < 0x80 || b3 > 0xbf {
        proof {
            assert(!valid_first_scalar(s));
        }
        return None;
    }
    proof {
        if b0 == 0xf0 {
            assert(0x10000 <= ((((b0 & 0x07) as u32) << 18) | (((b1 & 0x3f) as u32) << 12) | (((b2
                & 0x3f) as u32) << 6) | ((b3 & 0x3f) as u32)) && ((((b0 & 0x07) as u32) << 18) | (((
            b1 & 0x3f) as u32) << 12) | (((b2 & 0x3f) as u32) << 6) | ((b3 & 0x3f) as u32))
                <= 0x3ffff) by (bit_vector)
                requires
                    b0 == 0xf0 && 0x90 <= b1 <= 0xbf && 0x80 <= b2 <= 0xbf && 0x80 <= b3 <= 0xbf,
            ;
        } else if b0 <= 0xf3 {
            assert(0x40000 <= ((((b0 & 0x07) as u32) << 18) | (((b1 & 0x3f) as u32) << 12) | (((b2
                & 0x3f) as u32) << 6) | ((b3 & 0x3f) as u32)) && ((((b0 & 0x07) as u32) << 18) | (((
            b1 & 0x3f) as u32) << 12) | (((b2 & 0x3f) as u32) << 6) | ((b3 & 0x3f) as u32))
                <= 0xfffff) by (bit_vector)
                requires
                    0xf1 <= b0 <= 0xf3 && 0x80 <= b1 <= 0xbf && 0x80 <= b2 <= 0xbf && 0x80 <= b3
                        <= 0xbf,
            ;
        } else {
            assert(0x100000 <= ((((b0 & 0x07) as u32) << 18) | (((b1 & 0x3f) as u32) << 12) | (((b2
                & 0x3f) as u32) << 6) | ((b3 & 0x3f) as u32)) && ((((b0 & 0x07) as u32) << 18) | (((
            b1 & 0x3f) as u32) << 12) | (((b2 & 0x3f) as u32) << 6) | ((b3 & 0x3f) as u32))
                <= 0x10ffff) by (bit_vector)
                requires
                    b0 == 0xf4 && 0x80 <= b1 <= 0x8f && 0x80 <= b2 <= 0xbf && 0x80 <= b3 <= 0xbf,
            ;
        }
        assert(valid_first_scalar(s));
        assert(length_of_first_scalar(s) == 4);
    }
    Some(4)
}

/// Whether `bytes` is a well-formed UTF-8 encoding, scalar by scalar:
/// exactly vstd's `valid_utf8`.
pub fn is_valid_utf8(bytes: &[u8]) -> (result: bool)
    ensures
        result == valid_utf8(bytes@),
{
    let n = bytes.len();
    let mut i: usize = 0;
    proof {
        assert(bytes@.skip(0) =~= bytes@);
    }
    while i < n
        invariant
            i <= n,
            n == bytes@.len(),
            valid_utf8(bytes@) <==> valid_utf8(bytes@.skip(i as int)),
        decreases n - i,
    {
        match first_scalar_width(bytes, i) {
            Some(w) => {
                proof {
                    let s = bytes@.skip(i as int);
                    assert(valid_utf8(s) == (valid_first_scalar(s) && valid_utf8(
                        pop_first_scalar(s),
                    )));
                    assert(pop_first_scalar(s) =~= bytes@.skip(i + w as int));
                }
                i = i + w;
            },
            None => {
                proof {
                    let s = bytes@.skip(i as int);
                    assert(valid_utf8(s) == (valid_first_scalar(s) && valid_utf8(
                        pop_first_scalar(s),
                    )));
                }
                return false;
            },
        }
    }
    proof {
        assert(bytes@.skip(i as int) =~= Seq::<u8>::empty());
        assert(valid_utf8(Seq::<u8>::empty()));
    }
    true
}

} // verus!
