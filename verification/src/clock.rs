//! Where the start time of a job's run comes from.

use vstd::prelude::*;

verus! {

/// The pattern that start times are written in: year, month and day joined
/// by hyphens, an underscore, then hour, minute and second joined by hyphens.
pub open spec fn timestamp_pattern() -> Seq<char> {
    "%Y-%m-%d_%H-%M-%S"@
}

/// Whether `c` is one of the ten digits.
pub open spec fn is_digit(c: char) -> bool {
    c == '0' || c == '1' || c == '2' || c == '3' || c == '4' || c == '5' || c == '6' || c == '7'
        || c == '8' || c == '9'
}

/// Whether `text` is made of digits alone.
pub open spec fn all_digits(text: Seq<char>) -> bool {
    forall|i: int| 0 <= i < text.len() ==> is_digit(#[trigger] text[i])
}

/// Whether `text` writes a year from 1970 on: four digits, or a plus sign
/// and five digits or more.
pub open spec fn is_year(text: Seq<char>) -> bool {
    ||| text.len() == 4 && all_digits(text)
    ||| text.len() >= 6 && text[0] == '+' && all_digits(text.subrange(1, text.len() as int))
}

/// Whether `text` has the shape of a start time: a year, then month, day,
/// hour, minute and second in two digits each, with a hyphen before month,
/// day, minute and second and an underscore before the hour.
pub open spec fn is_start_time(text: Seq<char>) -> bool {
    let end = text.len() as int;
    &&& end >= 19
    &&& is_year(text.subrange(0, end - 15))
    &&& text[end - 15] == '-'
    &&& is_digit(text[end - 14])
    &&& is_digit(text[end - 13])
    &&& text[end - 12] == '-'
    &&& is_digit(text[end - 11])
    &&& is_digit(text[end - 10])
    &&& text[end - 9] == '_'
    &&& is_digit(text[end - 8])
    &&& is_digit(text[end - 7])
    &&& text[end - 6] == '-'
    &&& is_digit(text[end - 5])
    &&& is_digit(text[end - 4])
    &&& text[end - 3] == '-'
    &&& is_digit(text[end - 2])
    &&& is_digit(text[end - 1])
}

/// Calls `chrono::Utc::now`, then `format` and `to_string` on what it gives:
/// the system clock's time in UTC, written out after `pattern`.
///
/// Which time the text tells changes with the moment of the call, and
/// nothing is claimed of it. Its shape is claimed. For the one pattern
/// admitted here chrono writes month, day, hour, minute and second with two
/// digits each, padded with a zero, between the pattern's hyphens and
/// underscore. It writes a year from 1000 to 9999 with four digits and a
/// later one with a plus sign and all its digits; `now` gives no year
/// before 1970, because it gives up where the system clock shows an earlier
/// time. `format` fails on a pattern with a specifier that chrono does not
/// know; this pattern has none.
#[verifier::external_body]
fn utc_now_text(pattern: &str) -> (text: String)
    requires
        pattern@ == timestamp_pattern(),
    ensures
        is_start_time(text@),
{
    chrono::Utc::now().format(pattern).to_string()
}

/// A source of start times.
#[derive(Debug, Clone, PartialEq, Eq)]
pub enum Clock {
    /// The system clock, read in UTC at the moment it is asked.
    System,
    /// A clock that stands still at the time written in it.
    Fixed(String),
}

impl Clock {
    /// Whether the clock can give `reading` when asked. The system clock
    /// gives a start time, whichever it is; a clock that stands still gives
    /// what is written in it, whatever that is.
    pub open spec fn may_show(&self, reading: Seq<char>) -> bool {
        match self {
            Clock::System => is_start_time(reading),
            Clock::Fixed(time) => reading == time@,
        }
    }

    /// Asks the clock for the time, as text that can stand in a file name.
    pub fn timestamp(&self) -> (reading: String)
        ensures
            self.may_show(reading@),
    {
        match self {
            Clock::System => utc_now_text("%Y-%m-%d_%H-%M-%S"),
            Clock::Fixed(time) => time.clone(),
        }
    }
}

} // verus!
