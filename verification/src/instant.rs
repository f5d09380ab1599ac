//! A calendar instant with second resolution, and its fixed textual
//! rendering `YYYY-MM-DD HH:MM:SS`.

use vstd::prelude::*;

use crate::text::digit_char;
use crate::text::to_digit_char;
use crate::text::push_char;

verus! {

/// An instant supplied by the clock, held as plain calendar fields.
#[derive(Clone, Copy, Debug, PartialEq, Eq, Structural)]
pub struct Instant {
    pub year: u16,
    pub month: u8,
    pub day: u8,
    pub hour: u8,
    pub minute: u8,
    pub second: u8,
}

/// The two-digit zero-padded rendering of a value below one hundred.
pub open spec fn two_digits(n: int) -> Seq<char> {
    seq![digit_char(n / 10), digit_char(n % 10)]
}

/// The four-digit zero-padded rendering of a value below ten thousand.
pub open spec fn four_digits(n: int) -> Seq<char> {
    seq![
        digit_char(n / 1000),
        digit_char((n / 100) % 10),
        digit_char((n / 10) % 10),
        digit_char(n % 10),
    ]
}

/// The fixed textual timestamp format of an instant.
pub open spec fn instant_text(i: Instant) -> Seq<char> {
    four_digits(i.year as int) + seq!['-'] + two_digits(i.month as int) + seq!['-'] + two_digits(
        i.day as int,
    ) + seq![' '] + two_digits(i.hour as int) + seq![':'] + two_digits(i.minute as int)
        + seq![':'] + two_digits(i.second as int)
}

impl Instant {
    /// The fields stay within calendar bounds.
    pub open spec fn wf(self) -> bool {
        &&& self.year <= 9999
        &&& 1 <= self.month <= 12
        &&& 1 <= self.day <= 31
        &&& self.hour <= 23
        &&& self.minute <= 59
        &&& self.second <= 59
    }

    /// Builds an instant from its calendar fields.
    pub fn new(year: u16, month: u8, day: u8, hour: u8, minute: u8, second: u8) -> (r: Instant)
        requires
            year <= 9999,
            1 <= month <= 12,
            1 <= day <= 31,
            hour <= 23,
            minute <= 59,
            second <= 59,
        ensures
            r == (Instant { year, month, day, hour, minute, second }),
            r.wf(),
    {
        Instant { year, month, day, hour, minute, second }
    }

    /// Renders the instant in the fixed timestamp format.
    pub fn render(&self) -> (r: String)
        requires
            self.wf(),
        ensures
            r@ == instant_text(*self),
    {
        let mut out = String::new();
        push_four_digits(&mut out, self.year);
        push_char(&mut out, '-');
        push_two_digits(&mut out, self.month as u16);
        push_char(&mut out, '-');
        push_two_digits(&mut out, self.day as u16);
        push_char(&mut out, ' ');
        push_two_digits(&mut out, self.hour as u16);
        push_char(&mut out, ':');
        push_two_digits(&mut out, self.minute as u16);
        push_char(&mut out, ':');
        push_two_digits(&mut out, self.second as u16);
        assert(out@ =~= instant_text(*self));
        out
    }
}

/// Appends the two-digit rendering of `n` to `out`.
fn push_two_digits(out: &mut String, n: u16)
    requires
        n < 100,
    ensures
        final(out)@ == old(out)@ + two_digits(n as int),
{
    push_char(out, to_digit_char(n / 10));
    push_char(out, to_digit_char(n % 10));
    assert(final(out)@ =~= old(out)@ + two_digits(n as int));
}

/// Appends the four-digit rendering of `n` to `out`.
fn push_four_digits(out: &mut String, n: u16)
    requires
        n < 10000,
    ensures
        final(out)@ == old(out)@ + four_digits(n as int),
{
    push_char(out, to_digit_char(n / 1000));
    push_char(out, to_digit_char((n / 100) % 10));
    push_char(out, to_digit_char((n / 10) % 10));
    push_char(out, to_digit_char(n % 10));
    assert(final(out)@ =~= old(out)@ + four_digits(n as int));
}

} // verus!
