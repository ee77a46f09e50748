//! The current time, read from the system clock.
use vstd::prelude::*;

use crate::text::is_digit;

verus! {

/// The year as `%Y` writes it: four digits for the years 0 to 9999, else a sign and at
/// least four digits.
pub open spec fn year_text(y: Seq<char>) -> bool {
    ||| y.len() == 4 && forall|i: int| 0 <= i < 4 ==> is_digit(#[trigger] y[i])
    ||| y.len() >= 5 && (y[0] == '+' || y[0] == '-') && forall|i: int|
        1 <= i < y.len() ==> is_digit(#[trigger] y[i])
}

/// A date as `%Y-%m-%d` writes it: the year, a dash, two digits of month, a dash and two
/// digits of day.
pub open spec fn date_text(s: Seq<char>) -> bool {
    let n = s.len();
    &&& n >= 10
    &&& s[n - 6] == '-'
    &&& is_digit(s[n - 5])
    &&& is_digit(s[n - 4])
    &&& s[n - 3] == '-'
    &&& is_digit(s[n - 2])
    &&& is_digit(s[n - 1])
    &&& year_text(s.take(n - 6))
}

/// Calls `chrono::Utc::now` and gives the instant as milliseconds since the Unix epoch.
/// The answer depends on the clock; nothing is claimed of it.
#[verifier::external_body]
pub fn now_millis() -> (r: i64) {
    chrono::Utc::now().timestamp_millis()
}

/// Calls `chrono::Local::now` and formats the local date as `%Y-%m-%d`. Which date it
/// is depends on the clock and the time zone; what is claimed is the shape that chrono's
/// `%Y`, `%m` and `%d` give every date (zero-padded month and day; a sign and more digits
/// for a year outside 0 to 9999).
#[verifier::external_body]
pub fn local_date() -> (r: String)
    ensures
        date_text(r@),
{
    chrono::Local::now().format("%Y-%m-%d").to_string()
}

} // verus!
