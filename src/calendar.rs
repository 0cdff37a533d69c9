use vstd::prelude::*;

verus! {

/// Whether `year` (proleptic Gregorian, astronomical numbering) is a leap year.
pub open spec fn is_leap_year(year: int) -> bool {
    year % 4 == 0 && (year % 100 != 0 || year % 400 == 0)
}

/// Number of days in `year`.
pub open spec fn days_in_year(year: int) -> int {
    if is_leap_year(year) {
        366
    } else {
        365
    }
}

/// A (year, day-of-year) pair names a calendar date: the year lies in
/// -9999..=9999 and the day within that year's length.
pub open spec fn is_valid_ordinal_date(year: int, ordinal: int) -> bool {
    &&& -9999 <= year <= 9999
    &&& 1 <= ordinal <= days_in_year(year)
}

/// Days from the start of year 1 to the start of `year`.
pub open spec fn days_before_year(year: int) -> int {
    let y = year - 1;
    365 * y + y / 4 - y / 100 + y / 400
}

/// The Julian day number of a date: 1,721,426 for 0001-01-01.
pub open spec fn julian_day(year: int, ordinal: int) -> int {
    days_before_year(year) + ordinal + 1_721_425
}

/// Julian day number of 2000-01-01, the epoch of the bulk-load date encoding.
pub open spec fn epoch_2000_julian_day() -> int {
    2_451_545
}

/// Relies on time::Date::from_ordinal_date, which accepts exactly the
/// valid (year, day-of-year) pairs in -9999..=9999, and on
/// time::Date::to_julian_day for the day number of the date it built.
#[verifier::external_body]
fn julian_day_of_ordinal_date(year: i32, ordinal: u16) -> (r: Option<i32>)
    ensures
        r is Some <==> is_valid_ordinal_date(year as int, ordinal as int),
        r matches Some(j) ==> j == julian_day(year as int, ordinal as int),
{
    time::Date::from_ordinal_date(year, ordinal).ok().map(|d| d.to_julian_day())
}

/// The sampled (year, day-of-year) pair is not a calendar date.
#[derive(Debug, Clone, Copy, PartialEq, Eq, Structural)]
pub enum DateError {
    InvalidDate,
}

/// A calendar date held as its year and day of the year.
#[derive(Debug, Clone, Copy, PartialEq, Eq, Structural)]
pub struct CalendarDate {
    year: i32,
    ordinal: u16,
}

impl CalendarDate {
    pub closed spec fn spec_year(&self) -> int {
        self.year as int
    }

    pub closed spec fn spec_ordinal(&self) -> int {
        self.ordinal as int
    }

    /// Every value of this type built by `from_ordinal_date` names a real date.
    pub open spec fn wf(&self) -> bool {
        is_valid_ordinal_date(self.spec_year(), self.spec_ordinal())
    }

    /// Days since 2000-01-01, the date's value on the wire.
    pub open spec fn spec_days_since_2000(&self) -> int {
        julian_day(self.spec_year(), self.spec_ordinal()) - epoch_2000_julian_day()
    }

    /// Builds the date with the given year and day of the year, or fails
    /// when the pair is not a calendar date.
    pub fn from_ordinal_date(year: i32, ordinal: u16) -> (r: Result<CalendarDate, DateError>)
        ensures
            r is Ok <==> is_valid_ordinal_date(year as int, ordinal as int),
            r matches Ok(d) ==> d.wf() && d.spec_year() == year && d.spec_ordinal() == ordinal,
            r matches Err(e) ==> e == DateError::InvalidDate,
    {
        match julian_day_of_ordinal_date(year, ordinal) {
            Some(_) => Ok(CalendarDate { year, ordinal }),
            None => Err(DateError::InvalidDate),
        }
    }

    pub fn year(&self) -> (r: i32)
        ensures
            r == self.spec_year(),
    {
        self.year
    }

    pub fn ordinal(&self) -> (r: u16)
        ensures
            r == self.spec_ordinal(),
    {
        self.ordinal
    }

    /// Days since 2000-01-01 (negative before it).
    pub fn days_since_2000(&self) -> (r: i32)
        requires
            self.wf(),
        ensures
            r == self.spec_days_since_2000(),
    {
        let j = julian_day_of_ordinal_date(self.year, self.ordinal);
        match j {
            Some(d) => {
                proof {
                    lemma_julian_day_bounds(self.spec_year(), self.spec_ordinal());
                }
                d - 2_451_545
            },
            None => {
                proof {
                    assert(false);
                }
                0
            },
        }
    }
}

proof fn lemma_julian_day_bounds(year: int, ordinal: int)
    requires
        is_valid_ordinal_date(year, ordinal),
    ensures
        -2_000_000 <= julian_day(year, ordinal) <= 6_000_000,
{
    let y = year - 1;
    assert(-10000 <= y <= 9998);
    assert(-2500 <= y / 4 <= 2500);
    assert(-100 <= y / 100 <= 100);
    assert(-25 <= y / 400 <= 25);
}

} // verus!
