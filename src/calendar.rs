//! Civil dates in the proleptic Gregorian calendar, counted as days since
//! 1970-01-01, with the date arithmetic delegated to `jiff`.

use vstd::prelude::*;

verus! {

/// The earliest year a date may carry.
pub const MIN_YEAR: i16 = -9999;

/// The latest year a date may carry.
pub const MAX_YEAR: i16 = 9999;

/// Whether `y` is a leap year in the proleptic Gregorian calendar.
pub open spec fn is_leap_year(y: int) -> bool {
    (y % 4 == 0 && y % 100 != 0) || y % 400 == 0
}

/// The number of days in month `m` of year `y`.
pub open spec fn month_length(y: int, m: int) -> int {
    if m == 2 {
        if is_leap_year(y) { 29 } else { 28 }
    } else if m == 4 || m == 6 || m == 9 || m == 11 {
        30
    } else {
        31
    }
}

/// Days from 0001-01-01 to the first day of year `y`.
pub open spec fn days_before_year(y: int) -> int {
    365 * (y - 1) + (y - 1) / 4 - (y - 1) / 100 + (y - 1) / 400
}

/// Days from the first day of year `y` to the first day of month `m`.
pub open spec fn days_before_month(y: int, m: int) -> int {
    let common: int = if m == 1 { 0 }
        else if m == 2 { 31 }
        else if m == 3 { 59 }
        else if m == 4 { 90 }
        else if m == 5 { 120 }
        else if m == 6 { 151 }
        else if m == 7 { 181 }
        else if m == 8 { 212 }
        else if m == 9 { 243 }
        else if m == 10 { 273 }
        else if m == 11 { 304 }
        else { 334 };
    if m > 2 && is_leap_year(y) { common + 1 } else { common }
}

/// The number of days from 1970-01-01 to the date `y-m-d` (negative before it).
pub open spec fn day_number(y: int, m: int, d: int) -> int {
    days_before_year(y) + days_before_month(y, m) + d - 1 - 719162
}

/// A day of the week.
#[derive(Clone, Copy, Debug, PartialEq, Eq, Structural)]
pub enum Weekday {
    Monday,
    Tuesday,
    Wednesday,
    Thursday,
    Friday,
    Saturday,
    Sunday,
}

/// The weekday of the day with the given day number (1970-01-01 was a Thursday).
pub open spec fn weekday_at(n: int) -> Weekday {
    let i = (n + 3) % 7;
    if i == 0 { Weekday::Monday }
    else if i == 1 { Weekday::Tuesday }
    else if i == 2 { Weekday::Wednesday }
    else if i == 3 { Weekday::Thursday }
    else if i == 4 { Weekday::Friday }
    else if i == 5 { Weekday::Saturday }
    else { Weekday::Sunday }
}

/// A calendar date given by year, month and day.
#[derive(Clone, Copy, Debug, PartialEq, Eq, Structural)]
pub struct CivilDate {
    pub year: i16,
    pub month: i8,
    pub day: i8,
}

impl CivilDate {
    /// The fields name a real day within the supported years.
    pub open spec fn wf(self) -> bool {
        &&& MIN_YEAR <= self.year <= MAX_YEAR
        &&& 1 <= self.month <= 12
        &&& 1 <= self.day <= month_length(self.year as int, self.month as int)
    }

    /// This date's day number.
    pub open spec fn days(self) -> int {
        day_number(self.year as int, self.month as int, self.day as int)
    }

    /// The date, if `year-month-day` names a real day within the supported years.
    pub fn new(year: i16, month: i8, day: i8) -> (r: Option<CivilDate>)
        ensures
            r.is_some() <==> (CivilDate { year, month, day }).wf(),
            r.is_some() ==> r == Some(CivilDate { year, month, day }),
    {
        if year < MIN_YEAR || year > MAX_YEAR || month < 1 || month > 12 || day < 1 {
            return None;
        }
        if day > days_in_month(year, month) {
            None
        } else {
            Some(CivilDate { year, month, day })
        }
    }
}

/// The number of days in month `month` of year `year`.
pub fn days_in_month(year: i16, month: i8) -> (r: i8)
    requires
        1 <= month <= 12,
    ensures
        r == month_length(year as int, month as int),
{
    if month == 2 {
        if (year % 4 == 0 && year % 100 != 0) || year % 400 == 0 {
            29
        } else {
            28
        }
    } else if month == 4 || month == 6 || month == 9 || month == 11 {
        30
    } else {
        31
    }
}

/// Each year is 365 days long, 366 in a leap year.
pub proof fn lemma_year_length(y: int)
    ensures
        days_before_year(y + 1) - days_before_year(y) == if is_leap_year(y) { 366int } else { 365int },
{
}

/// The first day of a later year comes no sooner.
pub proof fn lemma_days_before_year_monotone(a: int, b: int)
    requires
        a <= b,
    ensures
        days_before_year(a) <= days_before_year(b),
    decreases b - a,
{
    if a < b {
        lemma_year_length(a);
        lemma_days_before_year_monotone(a + 1, b);
    }
}

/// A valid date lies between the first day of its year and the first day of the next.
pub proof fn lemma_within_year(d: CivilDate)
    requires
        d.wf(),
    ensures
        day_number(d.year as int, 1, 1) <= d.days(),
        d.days() < day_number(d.year as int + 1, 1, 1),
{
    lemma_year_length(d.year as int);
}

/// Of two valid dates, the one in the earlier year has the smaller day number.
pub proof fn lemma_earlier_year(a: CivilDate, b: CivilDate)
    requires
        a.wf(),
        b.wf(),
        a.year < b.year,
    ensures
        a.days() < b.days(),
{
    lemma_within_year(a);
    lemma_within_year(b);
    lemma_days_before_year_monotone(a.year as int + 1, b.year as int);
}

/// The day number of -9999-01-01, the first supported day.
pub open spec fn first_supported_day() -> int {
    day_number(MIN_YEAR as int, 1, 1)
}

/// The day number of 9999-12-31, the last supported day.
pub open spec fn last_supported_day() -> int {
    day_number(MAX_YEAR as int, 12, 31)
}

/// Whether day number `n` names a day within the supported years.
pub open spec fn in_supported_range(n: int) -> bool {
    first_supported_day() <= n <= last_supported_day()
}

/// The date `n` years after `d`: same month, the day cut to that month's length.
pub open spec fn years_later(d: CivilDate, n: int) -> CivilDate {
    let y = d.year + n;
    let len = month_length(y, d.month as int);
    CivilDate {
        year: y as i16,
        month: d.month,
        day: if d.day <= len { d.day } else { len as i8 },
    }
}

/// Every valid date lies within the supported range of day numbers.
pub proof fn lemma_supported_range(d: CivilDate)
    requires
        d.wf(),
    ensures
        in_supported_range(d.days()),
{
    let first = CivilDate { year: MIN_YEAR, month: 1, day: 1 };
    let last = CivilDate { year: MAX_YEAR, month: 12, day: 31 };
    lemma_within_year(d);
    if d.year > MIN_YEAR {
        lemma_earlier_year(first, d);
    }
    if d.year < MAX_YEAR {
        lemma_earlier_year(d, last);
    } else {
        lemma_year_length(MAX_YEAR as int);
    }
}

/// Relies on jiff's `Date - Date` (`Date::since`, which jiff documents as never
/// failing between two dates, its span counted in days) and `Span::get_days`:
/// the signed number of days from `a` to `b`.
#[verifier::external_body]
fn jiff_days_until(a: CivilDate, b: CivilDate) -> (r: i32)
    requires
        a.wf(),
        b.wf(),
    ensures
        r == b.days() - a.days(),
{
    let a = jiff::civil::date(a.year, a.month, a.day);
    let b = jiff::civil::date(b.year, b.month, b.day);
    (b - a).get_days()
}

/// Relies on jiff's `Span::try_days` and `Date::checked_add`: the date `n` days
/// after `d`, or an error where that day falls outside years -9999..=9999 (as it
/// must where `n` is beyond the span limit of 7,304,484 days).
#[verifier::external_body]
fn jiff_add_days(d: CivilDate, n: i32) -> (r: Option<CivilDate>)
    requires
        d.wf(),
    ensures
        r.is_some() <==> in_supported_range(d.days() + n),
        r.is_some() ==> r.unwrap().wf() && r.unwrap().days() == d.days() + n,
{
    let span = match jiff::Span::new().try_days(n) {
        Ok(span) => span,
        Err(_) => return None,
    };
    match jiff::civil::date(d.year, d.month, d.day).checked_add(span) {
        Ok(e) => Some(CivilDate { year: e.year(), month: e.month(), day: e.day() }),
        Err(_) => None,
    }
}

/// Relies on jiff's `Span::try_years` and `Date::checked_add`: the same month
/// `n` years on, the day cut to that month's length, or an error where the year
/// leaves -9999..=9999 (as it must where `n` is beyond the limit of 19,998 years).
#[verifier::external_body]
fn jiff_add_years(d: CivilDate, n: i16) -> (r: Option<CivilDate>)
    requires
        d.wf(),
    ensures
        r.is_some() <==> MIN_YEAR <= d.year + n <= MAX_YEAR,
        r.is_some() ==> r == Some(years_later(d, n as int)),
{
    let span = match jiff::Span::new().try_years(n) {
        Ok(span) => span,
        Err(_) => return None,
    };
    match jiff::civil::date(d.year, d.month, d.day).checked_add(span) {
        Ok(e) => Some(CivilDate { year: e.year(), month: e.month(), day: e.day() }),
        Err(_) => None,
    }
}

/// Relies on jiff's `Date::weekday`: the day of the week of `d`.
#[verifier::external_body]
fn jiff_weekday(d: CivilDate) -> (r: Weekday)
    requires
        d.wf(),
    ensures
        r == weekday_at(d.days()),
{
    match jiff::civil::date(d.year, d.month, d.day).weekday() {
        jiff::civil::Weekday::Monday => Weekday::Monday,
        jiff::civil::Weekday::Tuesday => Weekday::Tuesday,
        jiff::civil::Weekday::Wednesday => Weekday::Wednesday,
        jiff::civil::Weekday::Thursday => Weekday::Thursday,
        jiff::civil::Weekday::Friday => Weekday::Friday,
        jiff::civil::Weekday::Saturday => Weekday::Saturday,
        jiff::civil::Weekday::Sunday => Weekday::Sunday,
    }
}

impl CivilDate {
    /// The day of the week this date falls on.
    pub fn weekday(&self) -> (r: Weekday)
        requires
            self.wf(),
        ensures
            r == weekday_at(self.days()),
    {
        jiff_weekday(*self)
    }

    /// The signed number of days from this date to `other`.
    pub fn days_until(&self, other: &CivilDate) -> (r: i32)
        requires
            self.wf(),
            other.wf(),
        ensures
            r == other.days() - self.days(),
    {
        jiff_days_until(*self, *other)
    }

    /// The date `n` days after this one (before it, for negative `n`), or `None`
    /// where that day falls outside the supported years.
    pub fn checked_add_days(&self, n: i32) -> (r: Option<CivilDate>)
        requires
            self.wf(),
        ensures
            r.is_some() <==> in_supported_range(self.days() + n),
            r.is_some() ==> r.unwrap().wf() && r.unwrap().days() == self.days() + n,
    {
        jiff_add_days(*self, n)
    }

    /// The same month `n` years on, the day cut to that month's length, or `None`
    /// where the year leaves the supported years.
    pub fn checked_add_years(&self, n: i16) -> (r: Option<CivilDate>)
        requires
            self.wf(),
        ensures
            r.is_some() <==> MIN_YEAR <= self.year + n <= MAX_YEAR,
            r.is_some() ==> r == Some(years_later(*self, n as int)),
            r.is_some() ==> r.unwrap().wf(),
    {
        jiff_add_years(*self, n)
    }
}

/// The English name of a weekday.
pub open spec fn weekday_name(w: Weekday) -> Seq<char> {
    match w {
        Weekday::Monday => "Monday"@,
        Weekday::Tuesday => "Tuesday"@,
        Weekday::Wednesday => "Wednesday"@,
        Weekday::Thursday => "Thursday"@,
        Weekday::Friday => "Friday"@,
        Weekday::Saturday => "Saturday"@,
        Weekday::Sunday => "Sunday"@,
    }
}

/// The English name of `weekday`.
pub fn display_weekday(weekday: Weekday) -> (r: &'static str)
    ensures
        r@ == weekday_name(weekday),
{
    match weekday {
        Weekday::Monday => "Monday",
        Weekday::Tuesday => "Tuesday",
        Weekday::Wednesday => "Wednesday",
        Weekday::Thursday => "Thursday",
        Weekday::Friday => "Friday",
        Weekday::Saturday => "Saturday",
        Weekday::Sunday => "Sunday",
    }
}

/// The verb tense for `date` seen from `now`.
pub open spec fn tense(date: CivilDate, now: CivilDate) -> Seq<char> {
    if date.days() >= now.days() { "is"@ } else { "was"@ }
}

/// "is" when `date` is `now` or later, "was" when it lies in the past.
pub fn is_was(date: CivilDate, now: CivilDate) -> (r: &'static str)
    requires
        date.wf(),
        now.wf(),
    ensures
        r@ == tense(date, now),
{
    if now.days_until(&date) >= 0 {
        "is"
    } else {
        "was"
    }
}

} // verus!
