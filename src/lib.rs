//! Classification of Unicode code points into the categories of RFC 9839,
//! together with the character class of XML 1.0.
//!
//! Every predicate takes a bare `u32` and is total: values above the last
//! code point `U+10FFFF` are accepted as input and belong to no category.
use vstd::prelude::*;

pub mod control;
pub mod laws;

use control::{c0_control, c1_control, is_c0_control, is_c1_control, is_useful_control, useful_control};

verus! {

/// The UTF-16 surrogate code units, high `0xD800..=0xDBFF` and low
/// `0xDC00..=0xDFFF`.
pub open spec fn surrogate(c: int) -> bool {
    0xD800 <= c <= 0xDFFF
}

/// Check if the value is either a low or high surrogate;
/// these values must not be encoded as part of a UTF-8 stream.
pub fn is_unicode_surrotate(c: u32) -> (r: bool)
    ensures
        r == surrogate(c as int),
{
    (0xD800 <= c && c <= 0xDBFF) || (0xDC00 <= c && c <= 0xDFFF)
}

/// The last code point of the Unicode code space.
pub const MAX_CODE_POINT: u32 = 0x10FFFF;

/// Size of one plane of the code space.
pub const PLANE_SIZE: u32 = 0x10000;

/// The position of `c` within its plane.
pub open spec fn plane_offset(c: int) -> int {
    c % PLANE_SIZE as int
}

/// The 66 noncharacters: `0xFDD0..=0xFDEF`, and the last two code points
/// (offsets `0xFFFE` and `0xFFFF`) of each of the 17 planes.
pub open spec fn noncharacter(c: int) -> bool {
    (0xFDD0 <= c <= 0xFDEF) || (0 <= c <= MAX_CODE_POINT as int && plane_offset(c) >= 0xFFFE)
}

/// Checks if the value is one of the code points that Unicode permanently
/// reserves as noncharacters.
pub fn is_noncharacter(c: u32) -> (r: bool)
    ensures
        r == noncharacter(c as int),
{
    (0xFDD0 <= c && c <= 0xFDEF)
        || (0xFFFE <= c && c <= 0xFFFF)
        || (0x1FFFE <= c && c <= 0x1FFFF)
        || (0x2FFFE <= c && c <= 0x2FFFF)
        || (0x3FFFE <= c && c <= 0x3FFFF)
        || (0x4FFFE <= c && c <= 0x4FFFF)
        || (0x5FFFE <= c && c <= 0x5FFFF)
        || (0x6FFFE <= c && c <= 0x6FFFF)
        || (0x7FFFE <= c && c <= 0x7FFFF)
        || (0x8FFFE <= c && c <= 0x8FFFF)
        || (0x9FFFE <= c && c <= 0x9FFFF)
        || (0xAFFFE <= c && c <= 0xAFFFF)
        || (0xBFFFE <= c && c <= 0xBFFFF)
        || (0xCFFFE <= c && c <= 0xCFFFF)
        || (0xDFFFE <= c && c <= 0xDFFFF)
        || (0xEFFFE <= c && c <= 0xEFFFF)
        || (0xFFFFE <= c && c <= 0xFFFFF)
        || (0x10FFFE <= c && c <= 0x10FFFF)
}

/// Any code point of `0x0..=0x10FFFF` that is not a surrogate.
pub open spec fn unicode_scalar(c: int) -> bool {
    0 <= c <= MAX_CODE_POINT as int && !surrogate(c)
}

/// The characters of XML 1.0: code points other than the legacy C0 controls,
/// the surrogates and the two noncharacters `U+FFFE` and `U+FFFF`.
pub open spec fn xml_character(c: int) -> bool {
    &&& 0 <= c <= MAX_CODE_POINT as int
    &&& !(c0_control(c) && !useful_control(c))
    &&& !surrogate(c)
    &&& !(0xFFFE <= c <= 0xFFFF)
}

/// The code points that RFC 9839 calls assignable: code points other than
/// DEL, the legacy C0 controls, the C1 controls, the surrogates and the
/// noncharacters.
pub open spec fn unicode_assignable(c: int) -> bool {
    &&& 0 <= c <= MAX_CODE_POINT as int
    &&& c != 0x7F
    &&& !(c0_control(c) && !useful_control(c))
    &&& !c1_control(c)
    &&& !surrogate(c)
    &&& !noncharacter(c)
}

/// Any Unicode code point except high-surrogate and low-surrogate code points,
/// as specified by Unicode 16.
pub struct UnicodeScalars {}

impl UnicodeScalars {
    /// Checks that `c` is a code point and not a surrogate.
    pub fn contains(c: u32) -> (r: bool)
        ensures
            r == unicode_scalar(c as int),
    {
        c <= MAX_CODE_POINT && !is_unicode_surrotate(c)
    }
}

/// Unicode code points that exclude surrogates, legacy C0 controls, and the
/// noncharacters U+FFFE and U+FFFF, as specified by XML 1.0.
pub struct XmlCharacters {}

impl XmlCharacters {
    /// Checks that `c` is a character of XML 1.0.
    pub fn contains(c: u32) -> (r: bool)
        ensures
            r == xml_character(c as int),
    {
        c <= MAX_CODE_POINT
            && !(is_c0_control(c) && !is_useful_control(c))
            && !is_unicode_surrotate(c)
            && !(0xFFFE <= c && c <= 0xFFFF)
    }
}

/// Unicode code points that are not problematic, as specified by RFC 9839.
pub struct UnicodeAssignables {}

impl UnicodeAssignables {
    /// Checks that `c` is an assignable code point.
    pub fn contains(c: u32) -> (r: bool)
        ensures
            r == unicode_assignable(c as int),
    {
        c <= MAX_CODE_POINT
            && c != 0x7F
            && !(is_c0_control(c) && !is_useful_control(c))
            && !is_c1_control(c)
            && !is_unicode_surrotate(c)
            && !is_noncharacter(c)
    }
}

} // verus!
