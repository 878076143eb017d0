//! The local time, as the inverter's real-time clock is set.

use vstd::prelude::*;

use crate::text::{two_digits, zero_padded};

verus! {

/// A local date and time; a leap second is second 60.
pub struct LocalTime {
    pub year: int,
    pub month: int,
    pub day: int,
    pub hour: int,
    pub minute: int,
    pub second: int,
}

pub open spec fn is_leap_year(year: int) -> bool {
    year % 4 == 0 && (year % 100 != 0 || year % 400 == 0)
}

pub open spec fn days_in_month(year: int, month: int) -> int {
    if month == 2 {
        if is_leap_year(year) {
            29
        } else {
            28
        }
    } else if month == 4 || month == 6 || month == 9 || month == 11 {
        30
    } else {
        31
    }
}

impl LocalTime {
    /// Whether the date and time exist.
    pub open spec fn exists_in_calendar(self) -> bool {
        &&& 1 <= self.month <= 12
        &&& 1 <= self.day <= days_in_month(self.year, self.month)
        &&& 0 <= self.hour < 24
        &&& 0 <= self.minute < 60
        &&& 0 <= self.second <= 60
    }

    /// `YYYYMMDDHHMMSS`. A year that does not fit in four digits has a sign.
    pub open spec fn sync_text(self) -> Seq<char> {
        let year = if 0 <= self.year <= 9999 {
            zero_padded(self.year as nat, 4)
        } else if self.year > 9999 {
            seq!['+'] + zero_padded(self.year as nat, 4)
        } else {
            seq!['-'] + zero_padded((-self.year) as nat, 4)
        };
        year + two_digits(self.month as nat) + two_digits(self.day as nat) + two_digits(
            self.hour as nat,
        ) + two_digits(self.minute as nat) + two_digits(self.second as nat)
    }
}

/// Whether a text is the `YYYYMMDDHHMMSS` of some date and time that a clock can
/// show: clocks count from the start of 1970, which is still 1969 where the
/// local time is behind.
pub open spec fn is_sync_text(text: Seq<char>) -> bool {
    exists|now: LocalTime| #[trigger]
        now.exists_in_calendar() && now.year >= 1969 && text == now.sync_text()
}

/// The current local time by `chrono::Local::now`, written out by the pattern
/// with `chrono::DateTime::format`. Of the text it is claimed that the pattern
/// `%Y%m%d%H%M%S` makes it the year, month, day, hour, minute and second of a
/// date and time that exist, in 1969 or later; which one is up to the machine's
/// clock and time zone, and is left unsaid. `Local::now` panics where the clock
/// stands before 1970 or beyond the years of `chrono`, and where the machine's
/// time zone data gives no local time for the moment, or an offset of 24 hours
/// or more; no argument here could rule that out.
#[verifier::external_body]
fn local_time_text(pattern: &str) -> (text: String)
    requires
        pattern@ == "%Y%m%d%H%M%S"@,
    ensures
        is_sync_text(text@),
{
    chrono::Local::now().format(pattern).to_string()
}

/// Whether a text is one that the clock was read as.
pub closed spec fn is_clock_reading(text: String) -> bool {
    call_ensures(local_time_text, ("%Y%m%d%H%M%S",), text)
}

/// What a clock is read as by the pattern of the inverter's real-time clock.
fn read_clock<F: Fn(&str) -> String>(clock: F) -> (text: String)
    requires
        call_requires(clock, ("%Y%m%d%H%M%S",)),
    ensures
        call_ensures(clock, ("%Y%m%d%H%M%S",), text),
{
    clock("%Y%m%d%H%M%S")
}

/// The current local time as `YYYYMMDDHHMMSS`, as the clock is read in this call.
pub fn time_sync_text() -> (text: String)
    ensures
        is_sync_text(text@),
        is_clock_reading(text),
{
    read_clock(local_time_text)
}

/// In the years up to 9999 the text is fourteen decimal digits.
pub proof fn law_sync_text_is_fourteen_digits(now: LocalTime)
    requires
        now.exists_in_calendar(),
        0 <= now.year <= 9999,
    ensures
        now.sync_text().len() == 14,
        crate::text::all_digits(now.sync_text()),
{
    let y = now.year as nat;
    lemma_decimal_below_10000(y);
    let plain = crate::text::decimal(y);
    let padded = zero_padded(y, 4);
    assert(padded.len() == 4);
    assert(crate::text::all_digits(padded));
    let text = now.sync_text();
    assert(text =~= padded + two_digits(now.month as nat) + two_digits(now.day as nat)
        + two_digits(now.hour as nat) + two_digits(now.minute as nat) + two_digits(
        now.second as nat,
    ));
    assert forall|i: int| 0 <= i < text.len() implies '0' <= #[trigger] text[i] <= '9' by {
        if i < 4 {
            assert(text[i] == padded[i]);
        }
    }
}

/// The digits of the text spell the year, month, day, hour, minute and second,
/// in this order.
pub proof fn law_sync_text_spells_the_time(now: LocalTime)
    requires
        now.exists_in_calendar(),
        0 <= now.year <= 9999,
    ensures
        ({
            let text = now.sync_text();
            let d = |i: int| text[i] as int - 48;
            &&& d(0) * 1000 + d(1) * 100 + d(2) * 10 + d(3) == now.year
            &&& d(4) * 10 + d(5) == now.month
            &&& d(6) * 10 + d(7) == now.day
            &&& d(8) * 10 + d(9) == now.hour
            &&& d(10) * 10 + d(11) == now.minute
            &&& d(12) * 10 + d(13) == now.second
        }),
{
    let y = now.year as nat;
    let text = now.sync_text();
    reveal_with_fuel(crate::text::decimal, 4);
    lemma_decimal_below_10000(y);
    let padded = zero_padded(y, 4);
    assert(padded =~= seq![
        crate::text::digit(y / 1000),
        crate::text::digit(y / 100 % 10),
        crate::text::digit(y / 10 % 10),
        crate::text::digit(y % 10),
    ]);
    assert(text.take(4) =~= padded);
    assert(text[0] == padded[0] && text[1] == padded[1] && text[2] == padded[2] && text[3]
        == padded[3]);
    assert(text.subrange(4, 6) =~= two_digits(now.month as nat));
    assert(text.subrange(6, 8) =~= two_digits(now.day as nat));
    assert(text.subrange(8, 10) =~= two_digits(now.hour as nat));
    assert(text.subrange(10, 12) =~= two_digits(now.minute as nat));
    assert(text.subrange(12, 14) =~= two_digits(now.second as nat));
}

proof fn lemma_decimal_below_10000(n: nat)
    requires
        n < 10000,
    ensures
        1 <= crate::text::decimal(n).len() <= 4,
        crate::text::all_digits(crate::text::decimal(n)),
{
    reveal_with_fuel(crate::text::decimal, 4);
}

} // verus!
