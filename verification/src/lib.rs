//! Historical dates of varying granularity and precision, built on a
//! validated proleptic-calendar date value.
//!
//! The calendar is the proleptic Gregorian calendar: its leap-year rules
//! are extended backwards without change, and the year may be zero or
//! negative to denote years before the epoch reference point.

use vstd::prelude::*;

verus! {

use vstd::arithmetic::div_mod::lemma_mod_multiples_vanish;

/// Whether `year` is a leap year under the proleptic Gregorian rules:
/// divisible by 4 but not by 100, or divisible by 400. The rules apply
/// unchanged to zero and negative years.
pub open spec fn is_leap_year(year: int) -> bool {
    (year % 4 == 0 && year % 100 != 0) || year % 400 == 0
}

/// The number of days in `month` of `year`.
pub open spec fn days_in_month(year: int, month: int) -> int
    recommends
        1 <= month <= 12,
{
    if month == 2 {
        if is_leap_year(year) {
            29
        } else {
            28
        }
    } else if month == 4 || month == 6 || month == 9 || month == 11 {
        30
    } else {
        31
    }
}

/// Whether (`year`, `month`, `day`) names a day that exists in the
/// proleptic Gregorian calendar. Every `year` is in range; `month` and
/// `day` must fit the month lengths and leap-year rules.
pub open spec fn is_valid_date(year: int, month: int, day: int) -> bool {
    &&& 1 <= month <= 12
    &&& 1 <= day <= days_in_month(year, month)
}

/// Runtime check matching `is_leap_year`.
///
/// The remainders are computed on `year` shifted up by a multiple of 400
/// large enough to make the operand positive; shifting by a multiple of
/// 400 (hence of 4 and 100) leaves every remainder of interest unchanged,
/// which keeps the runtime arithmetic on non-negative values.
pub fn leap_year(year: i32) -> (b: bool)
    ensures
        b == is_leap_year(year as int),
{
    proof {
        lemma_mod_multiples_vanish(536871000, year as int, 4);
        lemma_mod_multiples_vanish(21474840, year as int, 100);
        lemma_mod_multiples_vanish(5368710, year as int, 400);
    }
    let y: i64 = (year as i64) + 2147484000;
    (y % 4 == 0 && y % 100 != 0) || y % 400 == 0
}

/// Runtime check matching `days_in_month`.
pub fn month_length(year: i32, month: u32) -> (n: u32)
    requires
        1 <= month <= 12,
    ensures
        n == days_in_month(year as int, month as int),
{
    if month == 2 {
        if leap_year(year) {
            29
        } else {
            28
        }
    } else if month == 4 || month == 6 || month == 9 || month == 11 {
        30
    } else {
        31
    }
}

/// A proleptic-Gregorian calendar date: a (year, month, day) triple with
/// no time-of-day component. The year may be zero or negative.
#[derive(Clone, Copy, Debug, PartialEq, Eq, Structural)]
pub struct CalendarDate {
    pub year: i32,
    pub month: u32,
    pub day: u32,
}

impl CalendarDate {
    /// The date names a day that exists in the calendar.
    pub open spec fn wf(self) -> bool {
        is_valid_date(self.year as int, self.month as int, self.day as int)
    }
}

/// Why a (year, month, day) triple was rejected.
#[derive(Clone, Copy, Debug, PartialEq, Eq, Structural)]
pub enum DateConstructionError {
    /// A day was supplied without a month.
    DayWithoutMonth,
    /// The components do not name a day of the proleptic calendar.
    InvalidCalendarDate,
}

impl DateConstructionError {
    /// A stable, human-readable description of the error.
    pub fn message(&self) -> (m: &'static str)
        ensures
            *self is DayWithoutMonth ==> m@ == "Cannot create a day-specific string without a month value."@,
            *self is InvalidCalendarDate ==> m@ == "The year, month and day do not name a calendar date."@,
    {
        match self {
            DateConstructionError::DayWithoutMonth => "Cannot create a day-specific string without a month value.",
            DateConstructionError::InvalidCalendarDate => "The year, month and day do not name a calendar date.",
        }
    }
}

/// The date, or error, that `construct_date` yields for a given
/// (year, optional month, optional day) triple. In priority order: a day
/// without a month is rejected; a full triple is the date itself, if it
/// exists; a month alone defaults the day to 1; a bare year defaults to
/// January 1.
pub open spec fn date_from_parts(year: i32, month: Option<u32>, day: Option<u32>) -> Result<
    CalendarDate,
    DateConstructionError,
> {
    match (month, day) {
        (None, Some(_)) => Err(DateConstructionError::DayWithoutMonth),
        (Some(m), Some(d)) => if is_valid_date(year as int, m as int, d as int) {
            Ok(CalendarDate { year, month: m, day: d })
        } else {
            Err(DateConstructionError::InvalidCalendarDate)
        },
        (Some(m), None) => if 1 <= m <= 12 {
            Ok(CalendarDate { year, month: m, day: 1 })
        } else {
            Err(DateConstructionError::InvalidCalendarDate)
        },
        (None, None) => Ok(CalendarDate { year, month: 1, day: 1 }),
    }
}

/// Validates and assembles a calendar date from partial components.
///
/// Any `year`, including zero and negative values, is accepted unchanged.
/// A missing month and day default to 1; a day given without a month, or
/// components that name no day of the calendar, are rejected with the
/// matching error.
pub fn construct_date(year: i32, month: Option<u32>, day: Option<u32>) -> (r: Result<
    CalendarDate,
    DateConstructionError,
>)
    ensures
        r == date_from_parts(year, month, day),
        (r matches Ok(date) ==> date.wf()),
{
    match (month, day) {
        (None, Some(_)) => Err(DateConstructionError::DayWithoutMonth),
        (Some(m), Some(d)) => {
            if 1 <= m && m <= 12 && 1 <= d && d <= month_length(year, m) {
                Ok(CalendarDate { year, month: m, day: d })
            } else {
                Err(DateConstructionError::InvalidCalendarDate)
            }
        },
        (Some(m), None) => {
            if 1 <= m && m <= 12 {
                Ok(CalendarDate { year, month: m, day: 1 })
            } else {
                Err(DateConstructionError::InvalidCalendarDate)
            }
        },
        (None, None) => Ok(CalendarDate { year, month: 1, day: 1 }),
    }
}

/// Every valid (year, month, day) combination is accepted and yields
/// exactly that calendar date.
pub proof fn lemma_full_date_round_trip(year: i32, month: u32, day: u32)
    requires
        is_valid_date(year as int, month as int, day as int),
    ensures
        date_from_parts(year, Some(month), Some(day)) == Ok::<CalendarDate, DateConstructionError>(
            (CalendarDate { year, month, day }),
        ),
{
}

/// A day supplied without a month is rejected with `DayWithoutMonth`,
/// whatever the year and the day.
pub proof fn lemma_day_without_month_rejected(year: i32, day: u32)
    ensures
        date_from_parts(year, None, Some(day)) == Err::<CalendarDate, DateConstructionError>(
            DateConstructionError::DayWithoutMonth,
        ),
{
}

/// A month supplied without a day defaults to the first day of that
/// month.
pub proof fn lemma_month_alone_defaults_to_first_day(year: i32, month: u32)
    requires
        1 <= month <= 12,
    ensures
        date_from_parts(year, Some(month), None) == Ok::<CalendarDate, DateConstructionError>(
            (CalendarDate { year, month, day: 1 }),
        ),
{
}

/// A bare year defaults to the first day of its first month.
pub proof fn lemma_year_alone_defaults_to_january_first(year: i32)
    ensures
        date_from_parts(year, None, None) == Ok::<CalendarDate, DateConstructionError>(
            (CalendarDate { year, month: 1, day: 1 }),
        ),
{
}

/// Every year, including zero and negative years, round-trips unchanged
/// through construction: a successfully constructed date carries exactly
/// the year that was asked for.
pub proof fn lemma_year_round_trips(year: i32, month: Option<u32>, day: Option<u32>)
    ensures
        date_from_parts(year, month, day) matches Ok(date) ==> date.year == year,
{
}

/// A (month, day) combination that names no day of the calendar is
/// rejected with `InvalidCalendarDate`, never silently normalized.
pub proof fn lemma_invalid_date_rejected(year: i32, month: u32, day: u32)
    requires
        !is_valid_date(year as int, month as int, day as int),
    ensures
        date_from_parts(year, Some(month), Some(day)) == Err::<CalendarDate, DateConstructionError>(
            DateConstructionError::InvalidCalendarDate,
        ),
{
}

/// Every date that construction yields names a day that exists in the
/// calendar.
pub proof fn lemma_constructed_dates_are_valid(year: i32, month: Option<u32>, day: Option<u32>)
    ensures
        date_from_parts(year, month, day) matches Ok(date) ==> date.wf(),
{
}

/// Whether a date's value is asserted exactly or only approximately,
/// independent of its granularity.
#[derive(Clone, Copy, Debug, PartialEq, Eq, Structural)]
pub enum DatePrecision {
    Precise,
    Approximate,
}

/// The unit of time a historical date claims: a coarser unit (a century,
/// a millennium) means the stored calendar date is a representative
/// anchor rather than an exact instant.
#[derive(Clone, Copy, Debug, PartialEq, Eq, Structural)]
pub enum DateType {
    Time,
    Day,
    Week,
    Month,
    Year,
    Decade,
    Century,
    Millennium,
}

/// A historical date: a granularity and a precision, fixed at
/// construction, and at most one of three optional date shapes — a
/// single point, a range given as separate start and end bounds, or a
/// range given as one paired value. A newly constructed entity has all
/// date fields empty; code that populates them must keep the shapes
/// mutually exclusive (see `wf`).
#[derive(Clone, Copy, Debug, PartialEq)]
pub struct HistoricalDate {
    pub date_type: DateType,
    pub precision: DatePrecision,
    pub point: Option<CalendarDate>,
    pub range_start: Option<CalendarDate>,
    pub range_end: Option<CalendarDate>,
    pub range: Option<(CalendarDate, CalendarDate)>,
}

impl HistoricalDate {
    /// The date shapes are mutually exclusive: at most one of the point,
    /// the start/end pair, or the combined range is populated.
    pub open spec fn wf(self) -> bool {
        let has_point = self.point is Some;
        let has_bounds = self.range_start is Some || self.range_end is Some;
        let has_range = self.range is Some;
        &&& !(has_point && has_bounds)
        &&& !(has_point && has_range)
        &&& !(has_bounds && has_range)
    }

    /// Constructs an entity with the given granularity and precision and
    /// every date field empty.
    pub fn new(date_type: DateType, precision: DatePrecision) -> (h: HistoricalDate)
        ensures
            h.date_type == date_type,
            h.precision == precision,
            h.point is None,
            h.range_start is None,
            h.range_end is None,
            h.range is None,
            h.wf(),
    {
        HistoricalDate {
            date_type,
            precision,
            point: None,
            range_start: None,
            range_end: None,
            range: None,
        }
    }
}

} // verus!
