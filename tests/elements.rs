use rfc9839::control::{
    is_c0_control, is_c1_control, is_carriage_return, is_horizontal_tab, is_legacy_control,
    is_newline, is_useful_control,
};
use rfc9839::{is_noncharacter, is_unicode_surrotate, UnicodeAssignables, UnicodeScalars, XmlCharacters};

#[test]
fn surrogate_range() {
    assert!(!is_unicode_surrotate(0xD7FF));
    assert!(is_unicode_surrotate(0xD800));
    assert!(is_unicode_surrotate(0xDBFF));
    assert!(is_unicode_surrotate(0xDC00));
    assert!(is_unicode_surrotate(0xDFFF));
    assert!(!is_unicode_surrotate(0xE000));
    assert!(!is_unicode_surrotate(0xFFFFFFFF));
}

#[test]
fn single_controls() {
    assert!(is_newline(0x0A));
    assert!(!is_newline(0x0D));
    assert!(is_carriage_return(0x0D));
    assert!(!is_carriage_return(0x0A));
    assert!(is_horizontal_tab(0x09));
    assert!(!is_horizontal_tab(0x0B));
}

#[test]
fn control_ranges() {
    assert!(is_c0_control(0x00));
    assert!(is_c0_control(0x1F));
    assert!(!is_c0_control(0x20));
    assert!(!is_c1_control(0x7F));
    assert!(is_c1_control(0x80));
    assert!(is_c1_control(0x9F));
    assert!(!is_c1_control(0xA0));
}

#[test]
fn useful_control_exhaustive() {
    for c in 0..=0xFF_u32 {
        assert_eq!(is_useful_control(c), c == 0x9 || c == 0xA || c == 0xD, "{:x}", c);
    }
}

#[test]
fn legacy_control_exhaustive() {
    for c in 0..=0xFF_u32 {
        let expected = (is_c0_control(c) || is_c1_control(c)) && !is_useful_control(c);
        assert_eq!(is_legacy_control(c), expected, "{:x}", c);
    }
    assert!(is_legacy_control(0x00));
    assert!(!is_legacy_control(0x09));
    assert!(is_legacy_control(0x85));
    assert!(!is_legacy_control(0x7F));
}

#[test]
fn noncharacter_exact() {
    let mut count = 0;
    for c in 0..=0x10FFFF_u32 {
        let expected = (0xFDD0..=0xFDEF).contains(&c) || (c & 0xFFFF) >= 0xFFFE;
        assert_eq!(is_noncharacter(c), expected, "{:x}", c);
        if expected {
            count += 1;
        }
    }
    assert_eq!(count, 66);
    assert!(!is_noncharacter(0x110000));
    assert!(!is_noncharacter(0x11FFFE));
    assert!(!is_noncharacter(0xFFFFFFFF));
}

#[test]
fn predicates_are_repeatable() {
    for c in [0x0_u32, 0x9, 0x7F, 0x85, 0xD800, 0xFDD0, 0xFFFE, 0x1FFFF, 0x10FFFF, 0x110000, 0xFFFFFFFF] {
        assert_eq!(UnicodeScalars::contains(c), UnicodeScalars::contains(c));
        assert_eq!(XmlCharacters::contains(c), XmlCharacters::contains(c));
        assert_eq!(UnicodeAssignables::contains(c), UnicodeAssignables::contains(c));
        assert_eq!(is_noncharacter(c), is_noncharacter(c));
        assert_eq!(is_unicode_surrotate(c), is_unicode_surrotate(c));
        assert_eq!(is_legacy_control(c), is_legacy_control(c));
        assert_eq!(is_useful_control(c), is_useful_control(c));
    }
}
