//! Character classes and string-building helpers shared by the field
//! checks, the timestamp renderer and the protocol text renderers.

use vstd::prelude::*;

verus! {

/// An ASCII decimal digit.
pub open spec fn is_digit_char(c: char) -> bool {
    '0' as int <= c as int <= '9' as int
}

/// An uppercase Latin letter.
pub open spec fn is_upper_char(c: char) -> bool {
    'A' as int <= c as int <= 'Z' as int
}

/// A hexadecimal digit, either case.
pub open spec fn is_hex_char(c: char) -> bool {
    is_digit_char(c)
        || 'a' as int <= c as int <= 'f' as int
        || 'A' as int <= c as int <= 'F' as int
}

/// The whitespace characters admitted by the printed-name rule.
pub open spec fn is_space_char(c: char) -> bool {
    c == ' ' || c == '\t' || c == '\n' || c == '\r'
}

/// Every character of `s` is an ASCII decimal digit.
pub open spec fn digits_only(s: Seq<char>) -> bool {
    forall|i: int| 0 <= i < s.len() ==> is_digit_char(#[trigger] s[i])
}

/// A non-empty, digits-only numeric code.
pub open spec fn is_numeric(s: Seq<char>) -> bool {
    s.len() > 0 && digits_only(s)
}

/// The lowercase form of a hexadecimal digit; other characters unchanged.
pub open spec fn lower_hex_char(c: char) -> char {
    if c == 'A' {
        'a'
    } else if c == 'B' {
        'b'
    } else if c == 'C' {
        'c'
    } else if c == 'D' {
        'd'
    } else if c == 'E' {
        'e'
    } else if c == 'F' {
        'f'
    } else {
        c
    }
}

/// The decimal digit character for a value below ten.
pub open spec fn digit_char(d: int) -> char {
    if d == 0 {
        '0'
    } else if d == 1 {
        '1'
    } else if d == 2 {
        '2'
    } else if d == 3 {
        '3'
    } else if d == 4 {
        '4'
    } else if d == 5 {
        '5'
    } else if d == 6 {
        '6'
    } else if d == 7 {
        '7'
    } else if d == 8 {
        '8'
    } else {
        '9'
    }
}

/// Relies on `String::push`: appends exactly one character to the string.
#[verifier::external_body]
pub fn push_char(s: &mut String, c: char)
    ensures
        final(s)@ == old(s)@.push(c),
{
    s.push(c);
}

/// Executable test for [`is_digit_char`].
pub fn check_digit_char(c: char) -> (b: bool)
    ensures
        b == is_digit_char(c),
{
    let v: u32 = c as u32;
    48 <= v && v <= 57
}

/// Executable test for [`is_upper_char`].
pub fn check_upper_char(c: char) -> (b: bool)
    ensures
        b == is_upper_char(c),
{
    let v: u32 = c as u32;
    65 <= v && v <= 90
}

/// Executable test for [`is_hex_char`].
pub fn check_hex_char(c: char) -> (b: bool)
    ensures
        b == is_hex_char(c),
{
    let v: u32 = c as u32;
    (48 <= v && v <= 57) || (97 <= v && v <= 102) || (65 <= v && v <= 70)
}

/// Executable test for [`is_space_char`].
pub fn check_space_char(c: char) -> (b: bool)
    ensures
        b == is_space_char(c),
{
    c == ' ' || c == '\t' || c == '\n' || c == '\r'
}

/// The executable counterpart of [`lower_hex_char`].
pub fn to_lower_hex(c: char) -> (r: char)
    ensures
        r == lower_hex_char(c),
{
    match c {
        'A' => 'a',
        'B' => 'b',
        'C' => 'c',
        'D' => 'd',
        'E' => 'e',
        'F' => 'f',
        _ => c,
    }
}

/// The executable counterpart of [`digit_char`].
pub fn to_digit_char(d: u16) -> (r: char)
    requires
        d < 10,
    ensures
        r == digit_char(d as int),
{
    match d {
        0 => '0',
        1 => '1',
        2 => '2',
        3 => '3',
        4 => '4',
        5 => '5',
        6 => '6',
        7 => '7',
        8 => '8',
        _ => '9',
    }
}

} // verus!
