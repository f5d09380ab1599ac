//! Format rules for the nine validated request fields, each as a spec
//! predicate with a verified executable checker.

use vstd::prelude::*;

use crate::text::check_digit_char;
use crate::text::check_hex_char;
use crate::text::check_space_char;
use crate::text::check_upper_char;
use crate::text::digits_only;
use crate::text::is_digit_char;
use crate::text::is_hex_char;
use crate::text::is_space_char;
use crate::text::is_upper_char;
use crate::text::lower_hex_char;
use crate::text::push_char;
use crate::text::to_lower_hex;

verus! {

/// Positions of the group separators inside a canonical identifier.
pub open spec fn id_dash_position(i: int) -> bool {
    i == 8 || i == 13 || i == 18 || i == 23
}

/// A unique identifier: five groups of hexadecimal digits, 8-4-4-4-12,
/// separated by dashes.
pub open spec fn is_id_format(s: Seq<char>) -> bool {
    &&& s.len() == 36
    &&& forall|i: int|
        0 <= i < 36 ==> (if id_dash_position(i) {
            #[trigger] s[i] == '-'
        } else {
            is_hex_char(s[i])
        })
}

/// The canonical (lowercase) rendering of an identifier.
pub open spec fn canon_id(s: Seq<char>) -> Seq<char> {
    s.map_values(|c: char| lower_hex_char(c))
}

/// Uppercase Latin letters and whitespace only, non-empty.
pub open spec fn is_printed_name(s: Seq<char>) -> bool {
    &&& s.len() > 0
    &&& forall|i: int|
        0 <= i < s.len() ==> is_upper_char(#[trigger] s[i]) || is_space_char(s[i])
}

/// Exactly six decimal digits.
pub open spec fn is_password(s: Seq<char>) -> bool {
    s.len() == 6 && digits_only(s)
}

/// Three or four decimal digits.
pub open spec fn is_cvv(s: Seq<char>) -> bool {
    (s.len() == 3 || s.len() == 4) && digits_only(s)
}

/// A four-digit month/year code whose month prefix is `00`-`12`.
pub open spec fn is_expiration_date(s: Seq<char>) -> bool {
    &&& s.len() == 4
    &&& digits_only(s)
    &&& (s[0] == '0' || (s[0] == '1' && s[1] as int <= '2' as int))
}

/// Checks the identifier format and, when it holds, returns the canonical
/// lowercase rendering of the identifier.
pub fn parse_id(s: &str) -> (r: Option<String>)
    ensures
        match r {
            Some(t) => is_id_format(s@) && t@ == canon_id(s@),
            None => !is_id_format(s@),
        },
{
    let n = s.unicode_len();
    if n != 36 {
        return None;
    }
    let mut out = String::new();
    let mut i: usize = 0;
    while i < 36
        invariant
            s@.len() == 36,
            0 <= i <= 36,
            out@ =~= canon_id(s@).subrange(0, i as int),
            forall|j: int|
                0 <= j < i ==> (if id_dash_position(j) {
                    #[trigger] s@[j] == '-'
                } else {
                    is_hex_char(s@[j])
                }),
        decreases 36 - i,
    {
        let c = s.get_char(i);
        if i == 8 || i == 13 || i == 18 || i == 23 {
            if c != '-' {
                return None;
            }
        } else {
            if !check_hex_char(c) {
                return None;
            }
        }
        push_char(&mut out, to_lower_hex(c));
        assert(out@ =~= canon_id(s@).subrange(0, i + 1));
        i = i + 1;
    }
    assert(out@ =~= canon_id(s@));
    Some(out)
}

/// Whether `s` is a well-formed printed name.
pub fn check_printed_name(s: &str) -> (b: bool)
    ensures
        b == is_printed_name(s@),
{
    let n = s.unicode_len();
    if n == 0 {
        return false;
    }
    let mut i: usize = 0;
    while i < n
        invariant
            n == s@.len(),
            0 <= i <= n,
            forall|j: int| 0 <= j < i ==> is_upper_char(#[trigger] s@[j]) || is_space_char(s@[j]),
        decreases n - i,
    {
        let c = s.get_char(i);
        if !check_upper_char(c) && !check_space_char(c) {
            return false;
        }
        i = i + 1;
    }
    true
}

/// Whether every character of `s` is a decimal digit.
pub fn check_all_digits(s: &str) -> (b: bool)
    ensures
        b == digits_only(s@),
{
    let n = s.unicode_len();
    let mut i: usize = 0;
    while i < n
        invariant
            n == s@.len(),
            0 <= i <= n,
            forall|j: int| 0 <= j < i ==> is_digit_char(#[trigger] s@[j]),
        decreases n - i,
    {
        if !check_digit_char(s.get_char(i)) {
            return false;
        }
        i = i + 1;
    }
    true
}

/// Whether `s` is a well-formed password.
pub fn check_password(s: &str) -> (b: bool)
    ensures
        b == is_password(s@),
{
    s.unicode_len() == 6 && check_all_digits(s)
}

/// Whether `s` is a well-formed card verification value.
pub fn check_cvv(s: &str) -> (b: bool)
    ensures
        b == is_cvv(s@),
{
    let n = s.unicode_len();
    (n == 3 || n == 4) && check_all_digits(s)
}

/// Whether `s` is a well-formed expiration date code.
pub fn check_expiration_date(s: &str) -> (b: bool)
    ensures
        b == is_expiration_date(s@),
{
    if s.unicode_len() != 4 || !check_all_digits(s) {
        return false;
    }
    let first = s.get_char(0);
    first == '0' || (first == '1' && s.get_char(1) as u32 <= '2' as u32)
}

} // verus!
