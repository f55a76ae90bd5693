use vstd::prelude::*;

verus! {

#[verifier::external_type_specification]
#[verifier::external_body]
pub struct ExDate(time::Date);

#[verifier::external_type_specification]
#[verifier::external_body]
pub struct ExTime(time::Time);

#[verifier::external_type_specification]
#[verifier::external_body]
pub struct ExPrimitiveDateTime(time::PrimitiveDateTime);

#[verifier::external_type_specification]
#[verifier::external_body]
pub struct ExOffsetDateTime(time::OffsetDateTime);

/// Gregorian leap-year rule.
pub open spec fn is_leap_year(year: int) -> bool {
    year % 4 == 0 && (year % 100 != 0 || year % 400 == 0)
}

pub open spec fn days_in_year(year: int) -> int {
    if is_leap_year(year) {
        366
    } else {
        365
    }
}

/// A UTC instant split into year, day of year and time of day, as the
/// decoder hands it out.
#[derive(Debug, Clone, Copy, PartialEq, Eq, Structural)]
pub struct CalendarParts {
    pub year: u16,
    pub yday: u16,
    pub hour: u8,
    pub minute: u8,
    pub second: u8,
    pub nanosecond: u32,
}

/// The parts name an existing instant.
pub open spec fn parts_valid(p: CalendarParts) -> bool {
    &&& 1 <= p.yday <= days_in_year(p.year as int)
    &&& p.hour < 24
    &&& p.minute < 60
    &&& p.second < 60
    &&& p.nanosecond < 1_000_000_000
}

/// The date that `time::Date::try_from_yo` builds from a year and a day of year.
pub uninterp spec fn date_of(year: int, ordinal: int) -> time::Date;

/// The time of day that `time::Time::try_from_hms_nano` builds.
pub uninterp spec fn time_of(hour: int, minute: int, second: int, nanosecond: int) -> time::Time;

/// The date-time that `time::PrimitiveDateTime::new` pairs.
pub uninterp spec fn pdt_of(date: time::Date, t: time::Time) -> time::PrimitiveDateTime;

/// The UTC instant that `time::PrimitiveDateTime::assume_utc` gives.
pub uninterp spec fn utc_of(dt: time::PrimitiveDateTime) -> time::OffsetDateTime;

/// The UTC instant that calendar parts name.
pub open spec fn instant_of(p: CalendarParts) -> time::OffsetDateTime {
    utc_of(
        pdt_of(
            date_of(p.year as int, p.yday as int),
            time_of(p.hour as int, p.minute as int, p.second as int, p.nanosecond as int),
        ),
    )
}

/// Relies on `time::Date::try_from_yo`: it accepts a year within
/// -100000..=100000 and a day between 1 and that year's length.
#[verifier::external_body]
fn date_from_yo(year: i32, ordinal: u16) -> (r: Option<time::Date>)
    ensures
        r is Some <==> (-100_000 <= year <= 100_000 && 1 <= ordinal <= days_in_year(year as int)),
        r matches Some(d) ==> d == date_of(year as int, ordinal as int),
{
    time::Date::try_from_yo(year, ordinal).ok()
}

/// Relies on `time::Time::try_from_hms_nano`: it accepts hours below 24,
/// minutes and seconds below 60, nanoseconds below one second.
#[verifier::external_body]
fn time_from_hms_nano(hour: u8, minute: u8, second: u8, nanosecond: u32) -> (r: Option<
    time::Time,
>)
    ensures
        r is Some <==> (hour < 24 && minute < 60 && second < 60 && nanosecond < 1_000_000_000),
        r matches Some(t) ==> t == time_of(hour as int, minute as int, second as int, nanosecond as int),
{
    time::Time::try_from_hms_nano(hour, minute, second, nanosecond).ok()
}

/// Relies on `time::PrimitiveDateTime::new`, which pairs a date and a time.
#[verifier::external_body]
fn primitive_date_time(date: time::Date, t: time::Time) -> (r: time::PrimitiveDateTime)
    ensures
        r == pdt_of(date, t),
{
    time::PrimitiveDateTime::new(date, t)
}

/// Relies on `time::PrimitiveDateTime::assume_utc`, which attaches the UTC offset.
#[verifier::external_body]
fn assume_utc(dt: time::PrimitiveDateTime) -> (r: time::OffsetDateTime)
    ensures
        r == utc_of(dt),
{
    dt.assume_utc()
}

/// `a` is not later than `b`.
pub open spec fn parts_le(a: CalendarParts, b: CalendarParts) -> bool {
    if a.year != b.year {
        a.year < b.year
    } else if a.yday != b.yday {
        a.yday < b.yday
    } else if a.hour != b.hour {
        a.hour < b.hour
    } else if a.minute != b.minute {
        a.minute < b.minute
    } else if a.second != b.second {
        a.second < b.second
    } else {
        a.nanosecond <= b.nanosecond
    }
}

impl CalendarParts {
    /// Whether `self` is not later than `other`.
    pub fn le(&self, other: &CalendarParts) -> (r: bool)
        ensures
            r == parts_le(*self, *other),
    {
        if self.year != other.year {
            self.year < other.year
        } else if self.yday != other.yday {
            self.yday < other.yday
        } else if self.hour != other.hour {
            self.hour < other.hour
        } else if self.minute != other.minute {
            self.minute < other.minute
        } else if self.second != other.second {
            self.second < other.second
        } else {
            self.nanosecond <= other.nanosecond
        }
    }

    pub fn is_valid(&self) -> (r: bool)
        ensures
            r == parts_valid(*self),
    {
        let y: u16 = self.year;
        let leap: bool = y % 4 == 0 && (y % 100 != 0 || y % 400 == 0);
        let days: u16 = if leap {
            366
        } else {
            365
        };
        1 <= self.yday && self.yday <= days && self.hour < 24 && self.minute < 60 && self.second
            < 60 && self.nanosecond < 1_000_000_000
    }
}

/// The UTC date-time that the parts name; `None` where they name none.
pub fn nstime_to_time(parts: &CalendarParts) -> (r: Option<time::OffsetDateTime>)
    ensures
        r is Some <==> parts_valid(*parts),
        r matches Some(t) ==> t == instant_of(*parts),
{
    let date = match date_from_yo(parts.year as i32, parts.yday) {
        Some(d) => d,
        None => return None,
    };
    let t = match time_from_hms_nano(parts.hour, parts.minute, parts.second, parts.nanosecond) {
        Some(t) => t,
        None => return None,
    };
    Some(assume_utc(primitive_date_time(date, t)))
}

} // verus!
