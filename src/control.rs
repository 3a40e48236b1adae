//! Code points of the ASCII control range (C0) and of its extension (C1).
use vstd::prelude::*;

verus! {

/// `U+000A`, line feed.
pub open spec fn newline(c: int) -> bool {
    c == 0x0A
}

/// `U+000D`, carriage return.
pub open spec fn carriage_return(c: int) -> bool {
    c == 0x0D
}

/// `U+0009`, horizontal tab.
pub open spec fn horizontal_tab(c: int) -> bool {
    c == 0x09
}

/// The three controls that text commonly carries: tab, newline and carriage return.
pub open spec fn useful_control(c: int) -> bool {
    newline(c) || carriage_return(c) || horizontal_tab(c)
}

/// The C0 controls, `0x00..=0x1F`.
pub open spec fn c0_control(c: int) -> bool {
    0x00 <= c <= 0x1F
}

/// The C1 controls, `0x80..=0x9F`.
pub open spec fn c1_control(c: int) -> bool {
    0x80 <= c <= 0x9F
}

/// The C0 and C1 controls other than the useful three.
pub open spec fn legacy_control(c: int) -> bool {
    (c0_control(c) || c1_control(c)) && !useful_control(c)
}

/// Checks for `b'\n'`.
pub fn is_newline(c: u32) -> (r: bool)
    ensures
        r == newline(c as int),
{
    c == 0x0A
}

/// Checks for `b'\r'`.
pub fn is_carriage_return(c: u32) -> (r: bool)
    ensures
        r == carriage_return(c as int),
{
    c == 0x0D
}

/// Checks for `b'\t'`.
pub fn is_horizontal_tab(c: u32) -> (r: bool)
    ensures
        r == horizontal_tab(c as int),
{
    c == 0x09
}

/// Checks for either `b'\n'`, `b'\r'` or `b'\t'`.
pub fn is_useful_control(c: u32) -> (r: bool)
    ensures
        r == useful_control(c as int),
        r == (c == 0x09 || c == 0x0A || c == 0x0D),
{
    is_newline(c) || is_carriage_return(c) || is_horizontal_tab(c)
}

/// Checks if the value falls into the ASCII control character range.
pub fn is_c0_control(c: u32) -> (r: bool)
    ensures
        r == c0_control(c as int),
{
    c <= 0x1F
}

/// Checks if the value falls into the extended ASCII control range.
pub fn is_c1_control(c: u32) -> (r: bool)
    ensures
        r == c1_control(c as int),
{
    0x80 <= c && c <= 0x9F
}

/// Checks if the value is a C0 or C1 control and isn't one of
/// `b'\n'`, `b'\r'` or `b'\t'`.
pub fn is_legacy_control(c: u32) -> (r: bool)
    ensures
        r == legacy_control(c as int),
        r == ((c0_control(c as int) || c1_control(c as int)) && !useful_control(c as int)),
{
    !is_useful_control(c) && (is_c0_control(c) || is_c1_control(c))
}

} // verus!
