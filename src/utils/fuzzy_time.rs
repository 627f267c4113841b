//! Relative, bucketed phrases for how long ago something happened.
use vstd::prelude::*;
use vstd::string::StringExecFns;
use crate::utils::text::{dec_digits, decimal, push_char};

verus! {

#[verifier::external_type_specification]
#[verifier::external_body]
pub struct ExSystemTime(std::time::SystemTime);

/// How long ago something happened, in the coarsest fitting bucket.
#[derive(Debug, Clone, Copy, PartialEq, Eq, Structural)]
pub enum FuzzyTime {
    SecondsAgo(u64),
    MinutesAgo(u64),
    HoursAgo(u64),
    DaysAgo(u64),
    WeeksAgo(u64),
    MonthsAgo(u64),
    YearsAgo(u64),
    LastWeek,
    LastMonth,
    LastYear,
    Yesterday,
}

/// The bucket for an age of `s` seconds. Minutes, hours and days are whole
/// ones; a week is 7 days, a month 30 and a year 365.
pub open spec fn fuzzy_of(s: u64) -> FuzzyTime {
    let minutes = s / 60;
    let hours = minutes / 60;
    let days = hours / 24;
    if s < 60 {
        FuzzyTime::SecondsAgo(s)
    } else if minutes < 60 {
        FuzzyTime::MinutesAgo(minutes)
    } else if hours < 24 {
        FuzzyTime::HoursAgo(hours)
    } else if days == 1 {
        FuzzyTime::Yesterday
    } else if days < 7 {
        FuzzyTime::DaysAgo(days)
    } else if days < 14 {
        FuzzyTime::LastWeek
    } else if days < 30 {
        FuzzyTime::WeeksAgo(days / 7)
    } else if days < 60 {
        FuzzyTime::LastMonth
    } else if days < 365 {
        FuzzyTime::MonthsAgo(days / 30)
    } else if days < 730 {
        FuzzyTime::LastYear
    } else {
        FuzzyTime::YearsAgo(days / 365)
    }
}

/// "`n` `unit`s ago", the unit singular for one.
pub open spec fn count_phrase(n: u64, unit: Seq<char>) -> Seq<char> {
    dec_digits(n as nat) + seq![' '] + unit + (if n == 1 {
        seq![]
    } else {
        seq!['s']
    }) + " ago"@
}

/// The words for a bucket.
pub open spec fn fuzzy_text(t: FuzzyTime) -> Seq<char> {
    match t {
        FuzzyTime::SecondsAgo(n) => count_phrase(n, "second"@),
        FuzzyTime::MinutesAgo(n) => count_phrase(n, "minute"@),
        FuzzyTime::HoursAgo(n) => count_phrase(n, "hour"@),
        FuzzyTime::DaysAgo(n) => count_phrase(n, "day"@),
        FuzzyTime::WeeksAgo(n) => count_phrase(n, "week"@),
        FuzzyTime::MonthsAgo(n) => count_phrase(n, "month"@),
        FuzzyTime::YearsAgo(n) => count_phrase(n, "year"@),
        FuzzyTime::LastWeek => "last week"@,
        FuzzyTime::LastMonth => "last month"@,
        FuzzyTime::LastYear => "last year"@,
        FuzzyTime::Yesterday => "yesterday"@,
    }
}

fn count_text(n: u64, unit: &str) -> (r: String)
    ensures
        r@ == count_phrase(n, unit@),
{
    let mut s = decimal(n);
    push_char(&mut s, ' ');
    s.append(unit);
    if n != 1 {
        push_char(&mut s, 's');
    }
    s.append(" ago");
    assert(s@ =~= count_phrase(n, unit@));
    s
}

impl FuzzyTime {
    /// The words for this bucket, such as "3 days ago" or "last week".
    pub fn text(&self) -> (r: String)
        ensures
            r@ == fuzzy_text(*self),
    {
        match self {
            FuzzyTime::SecondsAgo(n) => count_text(*n, "second"),
            FuzzyTime::MinutesAgo(n) => count_text(*n, "minute"),
            FuzzyTime::HoursAgo(n) => count_text(*n, "hour"),
            FuzzyTime::DaysAgo(n) => count_text(*n, "day"),
            FuzzyTime::WeeksAgo(n) => count_text(*n, "week"),
            FuzzyTime::MonthsAgo(n) => count_text(*n, "month"),
            FuzzyTime::YearsAgo(n) => count_text(*n, "year"),
            FuzzyTime::LastWeek => String::from_str("last week"),
            FuzzyTime::LastMonth => String::from_str("last month"),
            FuzzyTime::LastYear => String::from_str("last year"),
            FuzzyTime::Yesterday => String::from_str("yesterday"),
        }
    }
}

/// Puts an age of `seconds` into its bucket.
pub fn get_fuzzy_time(seconds: u64) -> (r: FuzzyTime)
    ensures
        r == fuzzy_of(seconds),
{
    let minutes = seconds / 60;
    let hours = minutes / 60;
    let days = hours / 24;
    if seconds < 60 {
        FuzzyTime::SecondsAgo(seconds)
    } else if minutes < 60 {
        FuzzyTime::MinutesAgo(minutes)
    } else if hours < 24 {
        FuzzyTime::HoursAgo(hours)
    } else if days == 1 {
        FuzzyTime::Yesterday
    } else if days < 7 {
        FuzzyTime::DaysAgo(days)
    } else if days < 14 {
        FuzzyTime::LastWeek
    } else if days < 30 {
        FuzzyTime::WeeksAgo(days / 7)
    } else if days < 60 {
        FuzzyTime::LastMonth
    } else if days < 365 {
        FuzzyTime::MonthsAgo(days / 30)
    } else if days < 730 {
        FuzzyTime::LastYear
    } else {
        FuzzyTime::YearsAgo(days / 365)
    }
}

/// The phrase for an age of `seconds`.
pub fn fuzzy_duration(seconds: u64) -> (r: String)
    ensures
        r@ == fuzzy_text(fuzzy_of(seconds)),
{
    get_fuzzy_time(seconds).text()
}

/// The phrase for an elapsed time, where None (a time still to come) reads
/// as zero seconds ago.
pub open spec fn elapsed_phrase(elapsed: Option<u64>) -> Seq<char> {
    match elapsed {
        Some(s) => fuzzy_text(fuzzy_of(s)),
        None => fuzzy_text(fuzzy_of(0)),
    }
}

/// The phrase for `elapsed` whole seconds, or for none at all where the
/// time lies in the future: see [`elapsed_phrase`].
pub fn fuzzy_elapsed(elapsed: Option<u64>) -> (r: String)
    ensures
        r@ == elapsed_phrase(elapsed),
{
    match elapsed {
        Some(s) => fuzzy_duration(s),
        None => fuzzy_duration(0),
    }
}

/// Relies on `SystemTime::now`: the current time of the system clock.
#[verifier::external_body]
fn now() -> std::time::SystemTime {
    std::time::SystemTime::now()
}

/// Relies on `SystemTime::duration_since`: the whole seconds from `earlier`
/// to `later`, or None where `earlier` is the later of the two.
#[verifier::external_body]
fn seconds_between(earlier: std::time::SystemTime, later: std::time::SystemTime) -> Option<u64> {
    later.duration_since(earlier).ok().map(|d| d.as_secs())
}

/// The phrase for how long ago `time` was; a time in the future counts as
/// zero seconds ago.
pub fn fuzzy_time(time: std::time::SystemTime) -> (r: String)
    ensures
        exists|elapsed: Option<u64>| r@ == elapsed_phrase(elapsed),
{
    fuzzy_elapsed(seconds_between(time, now()))
}

} // verus!
