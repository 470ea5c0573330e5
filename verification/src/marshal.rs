//! Boundary buffer marshaling.
//!
//! Inbound (pointer, length) buffers are copied by the unverified shell and
//! arrive here as plain byte vectors.  Each buffer is validated byte by
//! byte against vstd's UTF-8 specification and turned into an owned string
//! holding exactly the validated bytes; a buffer that is not well-formed
//! UTF-8 is refused with `MalformedInput` instead of being trusted.

use vstd::prelude::*;
use vstd::string::StringSliceAdditionalSpecFns;
use vstd::utf8::{
    decode_utf8, encode_utf8, encode_utf8_decode_utf8, length_of_first_scalar, pop_first_scalar,
    valid_first_scalar, valid_utf8,
};

verus! {

/// Failure of the marshaling layer.
#[derive(Clone, Copy, Debug, PartialEq, Eq, Structural)]
pub enum MarshalError {
    /// The boundary buffer is not a well-formed UTF-8 encoding.
    MalformedInput,
}

/// The codepoint value of a two-byte encoding, written out bitwise.
proof fn lemma_codepoint_2(b0: u8, b1: u8)
    requires
        0xc0 <= b0 <= 0xdf,
        0x80 <= b1 <= 0xbf,
    ensures
        b0 >= 0xc2 ==> 0x80 <= ((((b0 & 0x1f) as u32) << 6) | ((b1 & 0x3f) as u32)) <= 0x7ff,
        b0 <= 0xc1 ==> ((((b0 & 0x1f) as u32) << 6) | ((b1 & 0x3f) as u32)) < 0x80,
{
    assert((b0 >= 0xc2 ==> 0x80 <= ((((b0 & 0x1f) as u32) << 6) | ((b1 & 0x3f) as u32)) <= 0x7ff)
        && (b0 <= 0xc1 ==> ((((b0 & 0x1f) as u32) << 6) | ((b1 & 0x3f) as u32)) < 0x80))
        by (bit_vector)
        requires
            0xc0 <= b0 <= 0xdf,
            0x80 <= b1 <= 0xbf,
    ;
}

/// The codepoint value of a three-byte encoding, written out bitwise.
proof fn lemma_codepoint_3(b0: u8, b1: u8, b2: u8)
    requires
        0xe0 <= b0 <= 0xef,
        0x80 <= b1 <= 0xbf,
        0x80 <= b2 <= 0xbf,
    ensures
        b0 == 0xe0 && b1 >= 0xa0 ==> 0x800 <= ((((b0 & 0x0f) as u32) << 12) | (((b1
            & 0x3f) as u32) << 6) | ((b2 & 0x3f) as u32)) <= 0xfff,
        b0 == 0xe0 && b1 <= 0x9f ==> ((((b0 & 0x0f) as u32) << 12) | (((b1 & 0x3f) as u32) << 6) | (
        (b2 & 0x3f) as u32)) < 0x800,
        0xe1 <= b0 <= 0xec ==> 0x1000 <= ((((b0 & 0x0f) as u32) << 12) | (((b1
            & 0x3f) as u32) << 6) | ((b2 & 0x3f) as u32)) <= 0xcfff,
        b0 == 0xed && b1 <= 0x9f ==> 0xd000 <= ((((b0 & 0x0f) as u32) << 12) | (((b1
            & 0x3f) as u32) << 6) | ((b2 & 0x3f) as u32)) <= 0xd7ff,
        b0 == 0xed && b1 >= 0xa0 ==> 0xd800 <= ((((b0 & 0x0f) as u32) << 12) | (((b1
            & 0x3f) as u32) << 6) | ((b2 & 0x3f) as u32)) <= 0xdfff,
        b0 >= 0xee ==> 0xe000 <= ((((b0 & 0x0f) as u32) << 12) | (((b1 & 0x3f) as u32) << 6) | ((b2
            & 0x3f) as u32)) <= 0xffff,
{
    assert((b0 == 0xe0 && b1 >= 0xa0 ==> 0x800 <= ((((b0 & 0x0f) as u32) << 12) | (((b1
        & 0x3f) as u32) << 6) | ((b2 & 0x3f) as u32)) <= 0xfff) && (b0 == 0xe0 && b1 <= 0x9f ==> ((
    ((b0 & 0x0f) as u32) << 12) | (((b1 & 0x3f) as u32) << 6) | ((b2 & 0x3f) as u32)) < 0x800) && (
    0xe1 <= b0 <= 0xec ==> 0x1000 <= ((((b0 & 0x0f) as u32) << 12) | (((b1 & 0x3f) as u32) << 6) | (
    (b2 & 0x3f) as u32)) <= 0xcfff) && (b0 == 0xed && b1 <= 0x9f ==> 0xd000 <= ((((b0
        & 0x0f) as u32) << 12) | (((b1 & 0x3f) as u32) << 6) | ((b2 & 0x3f) as u32)) <= 0xd7ff) && (
    b0 == 0xed && b1 >= 0xa0 ==> 0xd800 <= ((((b0 & 0x0f) as u32) << 12) | (((b1
        & 0x3f) as u32) << 6) | ((b2 & 0x3f) as u32)) <= 0xdfff) && (b0 >= 0xee ==> 0xe000 <= ((((b0
        & 0x0f) as u32) << 12) | (((b1 & 0x3f) as u32) << 6) | ((b2 & 0x3f) as u32)) <= 0xffff))
        by (bit_vector)
        requires
            0xe0 <= b0 <= 0xef,
            0x80 <= b1 <= 0xbf,
            0x80 <= b2 <= 0xbf,
    ;
}

/// The codepoint value of a four-byte encoding, written out bitwise.
proof fn lemma_codepoint_4(b0: u8, b1: u8, b2: u8, b3: u8)
    requires
        0xf0 <= b0 <= 0xf7,
        0x80 <= b1 <= 0xbf,
        0x80 <= b2 <= 0xbf,
        0x80 <= b3 <= 0xbf,
    ensures
        b0 == 0xf0 && b1 >= 0x90 ==> 0x10000 <= ((((b0 & 0x07) as u32) << 18) | (((b1
            & 0x3f) as u32) << 12) | (((b2 & 0x3f) as u32) << 6) | ((b3 & 0x3f) as u32)) <= 0x3ffff,
        b0 == 0xf0 && b1 <= 0x8f ==> ((((b0 & 0x07) as u32) << 18) | (((b1 & 0x3f) as u32) << 12)
            | (((b2 & 0x3f) as u32) << 6) | ((b3 & 0x3f) as u32)) < 0x10000,
        0xf1 <= b0 <= 0xf3 ==> 0x40000 <= ((((b0 & 0x07) as u32) << 18) | (((b1
            & 0x3f) as u32) << 12) | (((b2 & 0x3f) as u32) << 6) | ((b3 & 0x3f) as u32)) <= 0xfffff,
        b0 == 0xf4 && b1 <= 0x8f ==> 0x100000 <= ((((b0 & 0x07) as u32) << 18) | (((b1
            & 0x3f) as u32) << 12) | (((b2 & 0x3f) as u32) << 6) | ((b3 & 0x3f) as u32))
            <= 0x10ffff,
        b0 == 0xf4 && b1 >= 0x90 ==> ((((b0 & 0x07) as u32) << 18) | (((b1 & 0x3f) as u32) << 12)
            | (((b2 & 0x3f) as u32) << 6) | ((b3 & 0x3f) as u32)) > 0x10ffff,
        b0 >= 0xf5 ==> ((((b0 & 0x07) as u32) << 18) | (((b1 & 0x3f) as u32) << 12) | (((b2
            & 0x3f) as u32) << 6) | ((b3 & 0x3f) as u32)) > 0x10ffff,
{
    assert((b0 == 0xf0 && b1 >= 0x90 ==> 0x10000 <= ((((b0 & 0x07) as u32) << 18) | (((b1
        & 0x3f) as u32) << 12) | (((b2 & 0x3f) as u32) << 6) | ((b3 & 0x3f) as u32)) <= 0x3ffff)
        && (b0 == 0xf0 && b1 <= 0x8f ==> ((((b0 & 0x07) as u32) << 18) | (((b1
        & 0x3f) as u32) << 12) | (((b2 & 0x3f) as u32) << 6) | ((b3 & 0x3f) as u32)) < 0x10000) && (
    0xf1 <= b0 <= 0xf3 ==> 0x40000 <= ((((b0 & 0x07) as u32) << 18) | (((b1 & 0x3f) as u32) << 12)
        | (((b2 & 0x3f) as u32) << 6) | ((b3 & 0x3f) as u32)) <= 0xfffff) && (b0 == 0xf4 && b1
        <= 0x8f ==> 0x100000 <= ((((b0 & 0x07) as u32) << 18) | (((b1 & 0x3f) as u32) << 12) | (((b2
        & 0x3f) as u32) << 6) | ((b3 & 0x3f) as u32)) <= 0x10ffff) && (b0 == 0xf4 && b1 >= 0x90
        ==> ((((b0 & 0x07) as u32) << 18) | (((b1 & 0x3f) as u32) << 12) | (((b2
        & 0x3f) as u32) << 6) | ((b3 & 0x3f) as u32)) > 0x10ffff) && (b0 >= 0xf5 ==> ((((b0
        & 0x07) as u32) << 18) | (((b1 & 0x3f) as u32) << 12) | (((b2 & 0x3f) as u32) << 6) | ((b3
        & 0x3f) as u32)) > 0x10ffff))
        by (bit_vector)
        requires
            0xf0 <= b0 <= 0xf7,
            0x80 <= b1 <= 0xbf,
            0x80 <= b2 <= 0xbf,
            0x80 <= b3 <= 0xbf,
    ;
}

/// A one-byte codepoint is its own value.
proof fn lemma_codepoint_1(b0: u8)
    requires
        b0 <= 0x7f,
    ensures
        ((b0 & 0x7f) as u32) <= 0x7f,
{
    assert(((b0 & 0x7f) as u32) <= 0x7f) by (bit_vector);
}

/// A well-formed first scalar of width 1.
proof fn lemma_scalar_width_1(s: Seq<u8>)
    requires
        s.len() >= 1,
        s[0] < 0x80,
    ensures
        valid_first_scalar(s),
        length_of_first_scalar(s) == 1,
{
    lemma_codepoint_1(s[0]);
}

/// A well-formed first scalar of width 2.
proof fn lemma_scalar_width_2(s: Seq<u8>)
    requires
        s.len() >= 2,
        0xc2 <= s[0] <= 0xdf,
        0x80 <= s[1] <= 0xbf,
    ensures
        valid_first_scalar(s),
        length_of_first_scalar(s) == 2,
{
    lemma_codepoint_2(s[0], s[1]);
}

/// A well-formed first scalar of width 3.  The extra bounds on the first
/// continuation byte rule out overlong encodings and the surrogate range.
proof fn lemma_scalar_width_3(s: Seq<u8>)
    requires
        s.len() >= 3,
        0xe0 <= s[0] <= 0xef,
        0x80 <= s[1] <= 0xbf,
        0x80 <= s[2] <= 0xbf,
        s[0] == 0xe0 ==> s[1] >= 0xa0,
        s[0] == 0xed ==> s[1] <= 0x9f,
    ensures
        valid_first_scalar(s),
        length_of_first_scalar(s) == 3,
{
    lemma_codepoint_3(s[0], s[1], s[2]);
}

/// A well-formed first scalar of width 4.
proof fn lemma_scalar_width_4(s: Seq<u8>)
    requires
        s.len() >= 4,
        0xf0 <= s[0] <= 0xf4,
        0x80 <= s[1] <= 0xbf,
        0x80 <= s[2] <= 0xbf,
        0x80 <= s[3] <= 0xbf,
        s[0] == 0xf0 ==> s[1] >= 0x90,
        s[0] == 0xf4 ==> s[1] <= 0x8f,
    ensures
        valid_first_scalar(s),
        length_of_first_scalar(s) == 4,
{
    lemma_codepoint_4(s[0], s[1], s[2], s[3]);
}

/// A sequence whose head byte is a two-byte lead without a continuation
/// byte after it, or an overlong two-byte lead, has no well-formed first
/// scalar.
proof fn lemma_bad_width_2(s: Seq<u8>)
    requires
        s.len() >= 1,
        0xc0 <= s[0] <= 0xdf,
        s[0] <= 0xc1 || s.len() < 2 || !(0x80 <= s[1] <= 0xbf),
    ensures
        !valid_first_scalar(s),
{
    if s.len() >= 2 && 0x80 <= s[1] <= 0xbf {
        lemma_codepoint_2(s[0], s[1]);
    }
}

/// A sequence whose head byte is a three-byte lead followed by anything but
/// the continuation bytes of a well-formed scalar has no well-formed first
/// scalar: the tail is short or malformed, the encoding is overlong, or the
/// codepoint falls in the surrogate range.
proof fn lemma_bad_width_3(s: Seq<u8>)
    requires
        s.len() >= 1,
        0xe0 <= s[0] <= 0xef,
        s.len() < 3 || !(0x80 <= s[1] <= 0xbf) || !(0x80 <= s[2] <= 0xbf) || (s[0] == 0xe0 && s[1]
            < 0xa0) || (s[0] == 0xed && s[1] >= 0xa0),
    ensures
        !valid_first_scalar(s),
{
    if s.len() >= 3 && 0x80 <= s[1] <= 0xbf && 0x80 <= s[2] <= 0xbf {
        lemma_codepoint_3(s[0], s[1], s[2]);
    }
}

/// The same for a four-byte lead: a short or malformed tail, an overlong
/// encoding, or a codepoint beyond the last Unicode scalar.
proof fn lemma_bad_width_4(s: Seq<u8>)
    requires
        s.len() >= 1,
        0xf0 <= s[0] <= 0xf7,
        s.len() < 4 || !(0x80 <= s[1] <= 0xbf) || !(0x80 <= s[2] <= 0xbf) || !(0x80 <= s[3] <= 0xbf)
            || (s[0] == 0xf0 && s[1] < 0x90) || (s[0] == 0xf4 && s[1] >= 0x90) || s[0] >= 0xf5,
    ensures
        !valid_first_scalar(s),
{
    if s.len() >= 4 && 0x80 <= s[1] <= 0xbf && 0x80 <= s[2] <= 0xbf && 0x80 <= s[3] <= 0xbf {
        lemma_codepoint_4(s[0], s[1], s[2], s[3]);
    }
}

/// A head byte that fits no width at all: a stray continuation byte or a
/// byte no encoding uses.
proof fn lemma_bad_lead(s: Seq<u8>)
    requires
        s.len() >= 1,
        0x80 <= s[0] <= 0xbf || s[0] >= 0xf8,
    ensures
        !valid_first_scalar(s),
{
}

/// Validity of a whole sequence steps over its well-formed first scalar.
proof fn lemma_valid_step(s: Seq<u8>, w: int)
    requires
        valid_first_scalar(s),
        length_of_first_scalar(s) == w,
    ensures
        valid_utf8(s) == valid_utf8(s.skip(w)),
{
    assert(pop_first_scalar(s) =~= s.skip(w));
}

/// A sequence without a well-formed first scalar is not valid UTF-8.
proof fn lemma_invalid_here(s: Seq<u8>)
    requires
        s.len() > 0,
        !valid_first_scalar(s),
    ensures
        !valid_utf8(s),
{
}

/// Decide whether `bytes` form a well-formed UTF-8 encoding, byte by byte.
pub fn check_utf8(bytes: &Vec<u8>) -> (r: bool)
    ensures
        r == valid_utf8(bytes@),
{
    let n = bytes.len();
    let mut i: usize = 0;
    proof {
        assert(bytes@.skip(0) =~= bytes@);
    }
    while i < n
        invariant
            i <= n,
            n == bytes@.len(),
            valid_utf8(bytes@) == valid_utf8(bytes@.skip(i as int)),
        decreases n - i,
    {
        let ghost s = bytes@.skip(i as int);
        let rem = n - i;
        let b0 = bytes[i];
        if b0 < 0x80 {
            proof {
                lemma_scalar_width_1(s);
                lemma_valid_step(s, 1);
                assert(s.skip(1) =~= bytes@.skip(i + 1));
            }
            i = i + 1;
        } else if 0xc2 <= b0 && b0 <= 0xdf {
            if rem < 2 || !(0x80 <= bytes[i + 1] && bytes[i + 1] <= 0xbf) {
                proof {
                    lemma_bad_width_2(s);
                    lemma_invalid_here(s);
                }
                return false;
            }
            proof {
                lemma_scalar_width_2(s);
                lemma_valid_step(s, 2);
                assert(s.skip(2) =~= bytes@.skip(i + 2));
            }
            i = i + 2;
        } else if 0xe0 <= b0 && b0 <= 0xef {
            if rem < 3 {
                proof {
                    lemma_bad_width_3(s);
                    lemma_invalid_here(s);
                }
                return false;
            }
            let b1 = bytes[i + 1];
            let b2 = bytes[i + 2];
            let lower1: u8 = if b0 == 0xe0 {
                0xa0
            } else {
                0x80
            };
            let upper1: u8 = if b0 == 0xed {
                0x9f
            } else {
                0xbf
            };
            if lower1 <= b1 && b1 <= upper1 && 0x80 <= b2 && b2 <= 0xbf {
                proof {
                    lemma_scalar_width_3(s);
                    lemma_valid_step(s, 3);
                    assert(s.skip(3) =~= bytes@.skip(i + 3));
                }
                i = i + 3;
            } else {
                proof {
                    lemma_bad_width_3(s);
                    lemma_invalid_here(s);
                }
                return false;
            }
        } else if 0xf0 <= b0 && b0 <= 0xf4 {
            if rem < 4 {
                proof {
                    lemma_bad_width_4(s);
                    lemma_invalid_here(s);
                }
                return false;
            }
            let b1 = bytes[i + 1];
            let b2 = bytes[i + 2];
            let b3 = bytes[i + 3];
            let lower1: u8 = if b0 == 0xf0 {
                0x90
            } else {
                0x80
            };
            let upper1: u8 = if b0 == 0xf4 {
                0x8f
            } else {
                0xbf
            };
            if lower1 <= b1 && b1 <= upper1 && 0x80 <= b2 && b2 <= 0xbf && 0x80 <= b3 && b3 <= 0xbf {
                proof {
                    lemma_scalar_width_4(s);
                    lemma_valid_step(s, 4);
                    assert(s.skip(4) =~= bytes@.skip(i + 4));
                }
                i = i + 4;
            } else {
                proof {
                    lemma_bad_width_4(s);
                    lemma_invalid_here(s);
                }
                return false;
            }
        } else {
            proof {
                if 0xc0 <= b0 && b0 <= 0xc1 {
                    lemma_bad_width_2(s);
                } else if 0xf5 <= b0 && b0 <= 0xf7 {
                    lemma_bad_width_4(s);
                } else {
                    lemma_bad_lead(s);
                }
                lemma_invalid_here(s);
            }
            return false;
        }
    }
    proof {
        assert(bytes@.skip(n as int) =~= Seq::<u8>::empty());
    }
    true
}

/// Decide whether two strings hold the same characters, by comparing
/// their encodings byte for byte.
pub fn str_eq(a: &str, b: &str) -> (r: bool)
    ensures
        r == (a@ == b@),
{
    proof {
        encode_utf8_decode_utf8(a@);
        encode_utf8_decode_utf8(b@);
    }
    let abytes = a.as_bytes();
    let bbytes = b.as_bytes();
    if abytes.len() != bbytes.len() {
        return false;
    }
    let n = abytes.len();
    let mut i: usize = 0;
    while i < n
        invariant
            i <= n,
            n == abytes@.len() == bbytes@.len(),
            abytes@ == a.spec_bytes(),
            bbytes@ == b.spec_bytes(),
            forall|k: int| 0 <= k < i ==> abytes@[k] == bbytes@[k],
        decreases n - i,
    {
        if abytes[i] != bbytes[i] {
            return false;
        }
        i = i + 1;
    }
    proof {
        assert(abytes@ =~= bbytes@);
    }
    true
}

/// An owned copy of a boundary buffer, taken before any further processing.
fn copy_bytes(bytes: &Vec<u8>) -> (r: Vec<u8>)
    ensures
        r@ == bytes@,
{
    let mut copy: Vec<u8> = Vec::new();
    let mut i: usize = 0;
    while i < bytes.len()
        invariant
            i <= bytes@.len(),
            copy@ == bytes@.take(i as int),
        decreases bytes@.len() - i,
    {
        copy.push(bytes[i]);
        proof {
            assert(copy@ =~= bytes@.take(i + 1));
        }
        i = i + 1;
    }
    proof {
        assert(bytes@.take(bytes@.len() as int) =~= bytes@);
    }
    copy
}

/// Relies on `String::from_utf8` (std): on a buffer that is a well-formed
/// UTF-8 encoding it returns the string made of exactly those bytes.
#[verifier::external_body]
fn string_from_valid_utf8(bytes: Vec<u8>) -> (r: String)
    requires
        valid_utf8(bytes@),
    ensures
        encode_utf8(r@) == bytes@,
{
    match String::from_utf8(bytes) {
        Ok(s) => s,
        Err(_) => String::new(),
    }
}

/// Decode one inbound boundary buffer into owned, validated text.
///
/// Exactly the well-formed UTF-8 buffers decode; the decoded string is the
/// buffer's character sequence and re-encodes to the buffer byte for byte.
pub fn decode(bytes: &Vec<u8>) -> (r: Result<String, MarshalError>)
    ensures
        r is Ok <==> valid_utf8(bytes@),
        r is Err ==> r.unwrap_err() == MarshalError::MalformedInput,
        r is Ok ==> encode_utf8(r.unwrap()@) == bytes@,
        r is Ok ==> r.unwrap()@ == decode_utf8(bytes@),
{
    if check_utf8(bytes) {
        let owned = copy_bytes(bytes);
        let text = string_from_valid_utf8(owned);
        proof {
            encode_utf8_decode_utf8(text@);
        }
        Ok(text)
    } else {
        Err(MarshalError::MalformedInput)
    }
}

} // verus!
