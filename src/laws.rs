//! Properties of the classification, stated over the specification functions
//! that the predicates' contracts use.
use vstd::prelude::*;

use crate::control::{c0_control, c1_control, legacy_control, useful_control};
use crate::{noncharacter, surrogate, unicode_assignable, unicode_scalar, xml_character, PLANE_SIZE};

verus! {

/// The Unicode scalars are exactly `0x0..=0xD7FF` and `0xE000..=0x10FFFF`.
pub proof fn lemma_unicode_scalar_ranges(c: u32)
    ensures
        unicode_scalar(c as int) == (c <= 0xD7FF || 0xE000 <= c <= 0x10FFFF),
{
}

/// The XML characters are exactly tab, newline, carriage return,
/// `0x20..=0xD7FF`, `0xE000..=0xFFFD` and `0x10000..=0x10FFFF`.
pub proof fn lemma_xml_character_ranges(c: u32)
    ensures
        xml_character(c as int) == (c == 0x9 || c == 0xA || c == 0xD || 0x20 <= c <= 0xD7FF
            || 0xE000 <= c <= 0xFFFD || 0x10000 <= c <= 0x10FFFF),
{
}

/// The ranges of the assignable code points, in ascending order: the three
/// useful controls, the printable ASCII and BMP ranges, and one range per
/// supplementary plane that stops two below the plane's end.
pub open spec fn assignable_ranges(c: int) -> bool {
    c == 0x9 || c == 0xA || c == 0xD
        || 0x20 <= c <= 0x7E
        || 0xA0 <= c <= 0xD7FF
        || 0xE000 <= c <= 0xFDCF
        || 0xFDF0 <= c <= 0xFFFD
        || 0x10000 <= c <= 0x1FFFD
        || 0x20000 <= c <= 0x2FFFD
        || 0x30000 <= c <= 0x3FFFD
        || 0x40000 <= c <= 0x4FFFD
        || 0x50000 <= c <= 0x5FFFD
        || 0x60000 <= c <= 0x6FFFD
        || 0x70000 <= c <= 0x7FFFD
        || 0x80000 <= c <= 0x8FFFD
        || 0x90000 <= c <= 0x9FFFD
        || 0xA0000 <= c <= 0xAFFFD
        || 0xB0000 <= c <= 0xBFFFD
        || 0xC0000 <= c <= 0xCFFFD
        || 0xD0000 <= c <= 0xDFFFD
        || 0xE0000 <= c <= 0xEFFFD
        || 0xF0000 <= c <= 0xFFFFD
        || 0x100000 <= c <= 0x10FFFD
}

/// The assignable code points are exactly the union of `assignable_ranges`.
pub proof fn lemma_unicode_assignable_ranges(c: u32)
    ensures
        unicode_assignable(c as int) == assignable_ranges(c as int),
{
}

/// The noncharacters are exactly `0xFDD0..=0xFDEF` and, for each plane `p`
/// of `0..=16`, the two values `p * 0x10000 + 0xFFFE` and `p * 0x10000 + 0xFFFF`;
/// no value above `0x10FFFF` is one.
pub proof fn lemma_noncharacter_values(c: u32)
    ensures
        noncharacter(c as int) == (0xFDD0 <= c <= 0xFDEF || exists|p: int|
            0 <= p <= 16 && (c == #[trigger] (p * PLANE_SIZE) + 0xFFFE || c == p * PLANE_SIZE
                + 0xFFFF)),
        c > 0x10FFFF ==> !noncharacter(c as int),
{
    if noncharacter(c as int) && !(0xFDD0 <= c <= 0xFDEF) {
        let p = c / PLANE_SIZE;
        assert(0 <= p <= 16 && (c == p * PLANE_SIZE + 0xFFFE || c == p * PLANE_SIZE + 0xFFFF));
    }
}

/// A legacy control is a C0 or C1 control that is not a useful control.
pub proof fn lemma_legacy_control(c: u32)
    ensures
        legacy_control(c as int) == ((c0_control(c as int) || c1_control(c as int))
            && !useful_control(c as int)),
{
}

/// The useful controls are exactly tab, newline and carriage return.
pub proof fn lemma_useful_control(c: u32)
    ensures
        useful_control(c as int) == (c == 0x9 || c == 0xA || c == 0xD),
{
}

/// The plane pattern repeats in every plane `p` of `0..=16`: above the block
/// `0xFDD0..=0xFDEF`, an offset within the plane is a noncharacter exactly when
/// it is `0xFFFE` or `0xFFFF`, and assignable exactly when it is not; in the
/// supplementary planes every offset up to `0xFFFD` is assignable.
pub proof fn lemma_plane_pattern(p: int, o: int)
    requires
        0 <= p <= 16,
        0 <= o < PLANE_SIZE,
    ensures
        0xFDF0 <= o ==> noncharacter(p * PLANE_SIZE + o) == (o >= 0xFFFE),
        0xFDF0 <= o ==> unicode_assignable(p * PLANE_SIZE + o) == (o <= 0xFFFD),
        1 <= p ==> noncharacter(p * PLANE_SIZE + o) == (o >= 0xFFFE),
        1 <= p ==> unicode_assignable(p * PLANE_SIZE + o) == (o <= 0xFFFD),
{
    let c = p * PLANE_SIZE + o;
    assert(c % (PLANE_SIZE as int) == o && c / (PLANE_SIZE as int) == p);
}

/// Each classification depends on the value alone: two calls on the same
/// value agree, whatever was classified before.
pub proof fn lemma_classification_is_pure(a: u32, b: u32)
    requires
        a == b,
    ensures
        surrogate(a as int) == surrogate(b as int),
        useful_control(a as int) == useful_control(b as int),
        legacy_control(a as int) == legacy_control(b as int),
        noncharacter(a as int) == noncharacter(b as int),
        unicode_scalar(a as int) == unicode_scalar(b as int),
        xml_character(a as int) == xml_character(b as int),
        unicode_assignable(a as int) == unicode_assignable(b as int),
{
}

} // verus!
