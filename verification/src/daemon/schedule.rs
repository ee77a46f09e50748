//! Sync intervals, written as `30s`, `5m`, `2h` or a bare number of seconds.
use vstd::prelude::*;

use crate::text::{
    concat2, decimal_spec, ends_with, has_suffix, int_error_message, is_digit,
    lemma_decimal_digits, lemma_read_decimal, lemma_trim_fixed_text, lowercase, lowercase_fixed,
    lowercase_fixed_text, parse_u64, parse_u64_spec, to_lowercase, trim, trim_end_matches,
    trim_end_matches_spec, trim_spec, IntErrorKind,
};

verus! {

/// A fixed interval between two sync runs.
#[derive(Debug, Clone)]
pub struct Schedule {
    interval_seconds: u64,
}

/// Reads the count in `digits` and scales it by `unit` seconds; a count that cannot be
/// read is reported after `what`.
pub open spec fn scaled(digits: Seq<char>, unit: int, what: Seq<char>) -> Result<int, Seq<char>> {
    match parse_u64_spec(digits) {
        Ok(n) => Ok(n * unit),
        Err(k) => Err(what + int_error_message(k)),
    }
}

/// The interval in seconds that the normalized text `t` (trimmed, lowercase) denotes,
/// or the error message: a trailing run of `s`, `m` or `h` gives the unit; without one
/// the number is in seconds.
pub open spec fn interval_spec(t: Seq<char>) -> Result<int, Seq<char>> {
    if has_suffix(t, "s"@) {
        scaled(trim_end_matches_spec(t, "s"@), 1, "Invalid seconds: "@)
    } else if has_suffix(t, "m"@) {
        scaled(trim_end_matches_spec(t, "m"@), 60, "Invalid minutes: "@)
    } else if has_suffix(t, "h"@) {
        scaled(trim_end_matches_spec(t, "h"@), 3600, "Invalid hours: "@)
    } else {
        scaled(t, 1, "Invalid number: "@)
    }
}

/// The text `from_duration_str` reads: trimmed, then lowercased.
pub open spec fn normalized(s: Seq<char>) -> Seq<char> {
    lowercase(trim_spec(s))
}

/// The interval that `t` denotes fits in `u64` seconds (or `t` is refused anyway).
pub open spec fn interval_fits(t: Seq<char>) -> bool {
    interval_spec(t) matches Ok(v) ==> v <= u64::MAX
}

/// `r` is the schedule, or the error, that `spec` gives.
pub open spec fn schedule_matches(r: Result<Schedule, String>, spec: Result<int, Seq<char>>) -> bool {
    match spec {
        Ok(v) => r is Ok && r->Ok_0.seconds() == v,
        Err(m) => r is Err && r->Err_0@ == m,
    }
}

/// A text made of digits only, at least one.
pub open spec fn all_digits(d: Seq<char>) -> bool {
    d.len() > 0 && forall|i: int| 0 <= i < d.len() ==> is_digit(#[trigger] d[i])
}

/// The unit letters.
pub open spec fn unit_letter(u: Seq<char>) -> bool {
    u == "s"@ || u == "m"@ || u == "h"@
}

/// Digits end in no unit letter, and a unit letter after them comes off as one; no other
/// unit letter ends them.
proof fn lemma_unit_suffix(d: Seq<char>, u: Seq<char>, w: Seq<char>)
    requires
        all_digits(d),
        unit_letter(u),
        unit_letter(w),
        u != w,
    ensures
        !has_suffix(d, u),
        has_suffix(d + u, u),
        trim_end_matches_spec(d + u, u) == d,
        !has_suffix(d + u, w),
{
    reveal_strlit("s");
    reveal_strlit("m");
    reveal_strlit("h");
    assert(u.len() == 1 && w.len() == 1);
    assert(is_digit(d[d.len() - 1]));
    assert(d.skip(d.len() - 1)[0] == d[d.len() - 1]);
    let du = d + u;
    assert(du.skip(du.len() - 1) =~= u);
    assert(du.take(du.len() - 1) =~= d);
    assert(du.skip(du.len() - 1)[0] == u[0]);
    assert(u[0] != w[0]);
    assert(!has_suffix(d, u));
    assert(trim_end_matches_spec(d, u) == d);
    assert(trim_end_matches_spec(du, u) == trim_end_matches_spec(du.take(du.len() - u.len()), u));
}

/// Digits end in no unit letter.
proof fn lemma_no_unit(d: Seq<char>, u: Seq<char>)
    requires
        all_digits(d),
        unit_letter(u),
    ensures
        !has_suffix(d, u),
{
    reveal_strlit("s");
    reveal_strlit("m");
    reveal_strlit("h");
    assert(is_digit(d[d.len() - 1]));
    assert(d.skip(d.len() - 1)[0] == d[d.len() - 1]);
}

/// A count followed by `s`, `m` or `h` reads as that many seconds, minutes or hours, and a
/// bare count as seconds; so `<n>m` means what `every_minutes(n)` builds.
pub proof fn law_unit_suffix_scales(d: Seq<char>)
    requires
        all_digits(d),
    ensures
        interval_spec(d + "s"@) == scaled(d, 1, "Invalid seconds: "@),
        interval_spec(d + "m"@) == scaled(d, 60, "Invalid minutes: "@),
        interval_spec(d + "h"@) == scaled(d, 3600, "Invalid hours: "@),
        interval_spec(d) == scaled(d, 1, "Invalid number: "@),
{
    reveal_strlit("s");
    reveal_strlit("m");
    reveal_strlit("h");
    assert("s"@[0] != "m"@[0] && "h"@[0] != "s"@[0] && "h"@[0] != "m"@[0]);
    lemma_unit_suffix(d, "s"@, "m"@);
    lemma_unit_suffix(d, "m"@, "s"@);
    lemma_unit_suffix(d, "h"@, "s"@);
    lemma_unit_suffix(d, "h"@, "m"@);
    lemma_no_unit(d, "s"@);
    lemma_no_unit(d, "m"@);
    lemma_no_unit(d, "h"@);
}

/// The decimal text of a count followed by `s`, `m` or `h`, or alone, reads as that many
/// seconds, minutes (times sixty) or hours (times 3600), or seconds; the text is already
/// trimmed and lowercase, so `from_duration_str` reads it as it stands.
pub proof fn law_count_with_unit_reads_back(n: nat)
    requires
        n <= u64::MAX,
    ensures
        lowercase_fixed_text(decimal_spec(n) + "s"@),
        lowercase_fixed_text(decimal_spec(n) + "m"@),
        lowercase_fixed_text(decimal_spec(n) + "h"@),
        lowercase_fixed_text(decimal_spec(n)),
        interval_spec(decimal_spec(n) + "s"@) == Ok::<int, Seq<char>>(n as int),
        interval_spec(decimal_spec(n) + "m"@) == Ok::<int, Seq<char>>(n as int * 60),
        interval_spec(decimal_spec(n) + "h"@) == Ok::<int, Seq<char>>(n as int * 3600),
        interval_spec(decimal_spec(n)) == Ok::<int, Seq<char>>(n as int),
{
    reveal_strlit("s");
    reveal_strlit("m");
    reveal_strlit("h");
    let d = decimal_spec(n);
    lemma_decimal_digits(n);
    lemma_read_decimal(n, u64::MAX as int);
    assert(all_digits(d));
    law_unit_suffix_scales(d);
    assert forall|u: Seq<char>| u.len() == 1 && lowercase_fixed(u[0]) implies lowercase_fixed_text(
        d + u,
    ) by {
        assert forall|i: int| 0 <= i < (d + u).len() implies lowercase_fixed(#[trigger] (d + u)[i]) by {
            if i < d.len() {
                assert(is_digit(d[i]));
            }
        }
    }
    assert(lowercase_fixed_text(d)) by {
        assert forall|i: int| 0 <= i < d.len() implies lowercase_fixed(#[trigger] d[i]) by {
            assert(is_digit(d[i]));
        }
    }
}

impl Schedule {
    /// The interval in seconds.
    pub closed spec fn seconds(&self) -> u64 {
        self.interval_seconds
    }

    fn read_scaled(digits: &str, unit: u64, what: &str) -> (r: Result<Schedule, String>)
        requires
            unit == 1 || unit == 60 || unit == 3600,
            scaled(digits@, unit as int, what@) matches Ok(v) ==> v <= u64::MAX,
        ensures
            schedule_matches(r, scaled(digits@, unit as int, what@)),
    {
        match parse_u64(digits) {
            Ok(n) => Ok(Schedule { interval_seconds: n * unit }),
            Err(k) => {
                let m: IntErrorKind = k;
                let msg = m.message();
                Err(concat2(what, msg.as_str()))
            },
        }
    }

    /// The schedule that the trimmed, lowercase text `t` denotes.
    pub fn from_normalized(t: &str) -> (r: Result<Schedule, String>)
        requires
            interval_fits(t@),
        ensures
            schedule_matches(r, interval_spec(t@)),
    {
        if ends_with(t, "s") {
            Self::read_scaled(trim_end_matches(t, "s"), 1, "Invalid seconds: ")
        } else if ends_with(t, "m") {
            Self::read_scaled(trim_end_matches(t, "m"), 60, "Invalid minutes: ")
        } else if ends_with(t, "h") {
            Self::read_scaled(trim_end_matches(t, "h"), 3600, "Invalid hours: ")
        } else {
            Self::read_scaled(t, 1, "Invalid number: ")
        }
    }

    /// A schedule from a duration such as `30s`, `5m`, `2h` or `120` (seconds), after
    /// trimming and lowercasing.
    pub fn from_duration_str(s: &str) -> (r: Result<Schedule, String>)
        requires
            interval_fits(normalized(s@)),
        ensures
            schedule_matches(r, interval_spec(normalized(s@))),
            lowercase_fixed_text(s@) ==> schedule_matches(r, interval_spec(s@)),
    {
        let trimmed = trim(s);
        proof {
            if lowercase_fixed_text(s@) {
                lemma_trim_fixed_text(s@);
            }
        }
        let t = to_lowercase(trimmed);
        Self::from_normalized(t.as_str())
    }

    /// As `from_duration_str`, but `None` where the interval would not fit in `u64`
    /// seconds.
    pub fn checked_from_duration_str(s: &str) -> (r: Option<Result<Schedule, String>>)
        ensures
            match r {
                Some(res) => interval_fits(normalized(s@)) && schedule_matches(
                    res,
                    interval_spec(normalized(s@)),
                ),
                None => !interval_fits(normalized(s@)),
            },
            lowercase_fixed_text(s@) ==> match r {
                Some(res) => interval_fits(s@) && schedule_matches(res, interval_spec(s@)),
                None => !interval_fits(s@),
            },
    {
        let trimmed = trim(s);
        proof {
            if lowercase_fixed_text(s@) {
                lemma_trim_fixed_text(s@);
            }
        }
        let t = to_lowercase(trimmed);
        if !Self::fits(t.as_str()) {
            return None;
        }
        Some(Self::from_duration_str(s))
    }

    fn fits(t: &str) -> (r: bool)
        ensures
            r == interval_fits(t@),
    {
        if ends_with(t, "s") {
            true
        } else if ends_with(t, "m") {
            Self::count_fits(trim_end_matches(t, "m"), 60)
        } else if ends_with(t, "h") {
            Self::count_fits(trim_end_matches(t, "h"), 3600)
        } else {
            true
        }
    }

    fn count_fits(digits: &str, unit: u64) -> (r: bool)
        requires
            unit > 0,
        ensures
            r == (parse_u64_spec(digits@) matches Ok(n) ==> n * unit <= u64::MAX),
    {
        match parse_u64(digits) {
            Ok(n) => {
                assert((n <= u64::MAX / unit) == (n * unit <= u64::MAX)) by (nonlinear_arith)
                    requires
                        unit > 0,
                ;
                n <= u64::MAX / unit
            },
            Err(_) => true,
        }
    }

    /// The interval in seconds.
    pub fn interval_seconds(&self) -> (r: u64)
        ensures
            r == self.seconds(),
    {
        self.interval_seconds
    }

    /// Every `seconds` seconds.
    pub fn every_seconds(seconds: u64) -> (r: Self)
        ensures
            r.seconds() == seconds,
    {
        Schedule { interval_seconds: seconds }
    }

    /// Every `minutes` minutes.
    pub fn every_minutes(minutes: u64) -> (r: Self)
        requires
            minutes * 60 <= u64::MAX,
        ensures
            r.seconds() == minutes * 60,
    {
        Schedule { interval_seconds: minutes * 60 }
    }

    /// Every `hours` hours.
    pub fn every_hours(hours: u64) -> (r: Self)
        requires
            hours * 3600 <= u64::MAX,
        ensures
            r.seconds() == hours * 3600,
    {
        Schedule { interval_seconds: hours * 3600 }
    }
}

impl Default for Schedule {
    /// Every five minutes.
    fn default() -> (r: Self)
        ensures
            r.seconds() == 300,
    {
        Self::every_minutes(5)
    }
}

} // verus!
