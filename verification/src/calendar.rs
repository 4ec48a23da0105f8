//! The Gregorian calendar and the picker that sets the clock by hand.

use crate::clock::SystemTime;
use crate::text::{decimal_text, padded_decimal, zero_padded, Text};
use vstd::prelude::*;
use vstd::string::*;

verus! {

/// The last day, counted from the first day of 1970, whose year fits `i32`.
pub const LAST_CIVIL_DAY: i64 = 784_351_576_776;

/// The first day, counted from the first day of 1970, whose year fits `i32`.
pub const FIRST_CIVIL_DAY: i64 = -784_353_015_833;

/// Whether a year has a 29th of February.
pub open spec fn leap(year: int) -> bool {
    year % 4 == 0 && (year % 100 != 0 || year % 400 == 0)
}

/// The number of days of a month; 31 for what is no month.
pub open spec fn month_length(year: int, month: int) -> int {
    if month == 2 {
        if leap(year) {
            29
        } else {
            28
        }
    } else if month == 4 || month == 6 || month == 9 || month == 11 {
        30
    } else {
        31
    }
}

/// The days of a common year that lie before the first day of a month. Month 0
/// is the December before, and from December on a month begins 30.6 days after
/// the one before it, rounded.
pub open spec fn common_days_before(month: int) -> int {
    if month < 1 {
        -31
    } else if month == 1 {
        0
    } else if month == 2 {
        31
    } else if month == 3 {
        59
    } else if month == 4 {
        90
    } else if month == 5 {
        120
    } else if month == 6 {
        151
    } else if month == 7 {
        181
    } else if month == 8 {
        212
    } else if month == 9 {
        243
    } else if month == 10 {
        273
    } else if month == 11 {
        304
    } else {
        59 + (153 * (month - 3) + 2) / 5
    }
}

/// The days of a year that lie before the first day of a month.
pub open spec fn days_before_month(year: int, month: int) -> int {
    common_days_before(month) + if month > 2 && leap(year) {
        1int
    } else {
        0int
    }
}

/// The leap years before a year, counted from the year 1 on.
pub open spec fn leap_years_before(year: int) -> int {
    (year - 1) / 4 - (year - 1) / 100 + (year - 1) / 400
}

/// The days from the first day of 1970 to the first day of a year. The leap
/// years before 1970 are 477.
pub open spec fn days_before_year(year: int) -> int {
    365 * (year - 1970) + leap_years_before(year) - 477
}

/// The days from the first day of 1970 to a date.
pub open spec fn day_number(year: int, month: int, day: int) -> int {
    days_before_year(year) + days_before_month(year, month) + day - 1
}

/// Whether year, month and day form a date.
pub open spec fn is_date(year: int, month: int, day: int) -> bool {
    1 <= month <= 12 && 1 <= day <= month_length(year, month)
}

/// A year has 365 days, a leap year 366.
pub proof fn law_year_length(year: int)
    ensures
        days_before_year(year + 1) == days_before_year(year) + 365 + if leap(year) {
            1int
        } else {
            0int
        },
{
    lemma_floor_steps(year);
}

/// How the quotients by 4, 100 and 400 grow from one year to the next.
proof fn lemma_floor_steps(year: int)
    ensures
        year / 4 - (year - 1) / 4 == (if year % 4 == 0 {
            1int
        } else {
            0int
        }),
        year / 100 - (year - 1) / 100 == (if year % 100 == 0 {
            1int
        } else {
            0int
        }),
        year / 400 - (year - 1) / 400 == (if year % 400 == 0 {
            1int
        } else {
            0int
        }),
        year % 100 == 0 ==> year % 4 == 0,
        year % 400 == 0 ==> year % 100 == 0,
{
}

proof fn lemma_years_apart(first: int, second: int)
    requires
        first < second,
    ensures
        days_before_year(first) + 365 + (if leap(first) {
            1int
        } else {
            0int
        }) <= days_before_year(second),
    decreases second - first,
{
    law_year_length(first);
    if first + 1 < second {
        lemma_years_apart(first + 1, second);
    }
}

proof fn lemma_day_in_year(year: int, month: int, day: int)
    requires
        is_date(year, month, day),
    ensures
        days_before_year(year) <= day_number(year, month, day) < days_before_year(year + 1),
{
    law_year_length(year);
}

/// A later date has the greater day number, so a day number belongs to one
/// date at most.
pub proof fn law_day_numbers_are_distinct(
    year: int,
    month: int,
    day: int,
    other_year: int,
    other_month: int,
    other_day: int,
)
    requires
        is_date(year, month, day),
        is_date(other_year, other_month, other_day),
        day_number(year, month, day) == day_number(other_year, other_month, other_day),
    ensures
        year == other_year,
        month == other_month,
        day == other_day,
{
    lemma_day_in_year(year, month, day);
    lemma_day_in_year(other_year, other_month, other_day);
    if year < other_year {
        lemma_years_apart(year, other_year);
        law_year_length(year);
    } else if other_year < year {
        lemma_years_apart(other_year, year);
        law_year_length(other_year);
    }
}

/// Whether a year has a 29th of February.
pub fn is_leap_year(year: i32) -> (answer: bool)
    ensures
        answer == leap(year as int),
{
    year.checked_rem_euclid(4).unwrap() == 0 && (year.checked_rem_euclid(100).unwrap() != 0
        || year.checked_rem_euclid(400).unwrap() == 0)
}

/// The number of days of a month; 31 for what is no month.
pub fn days_in_month(year: i32, month: u8) -> (days: u8)
    ensures
        days == month_length(year as int, month as int),
{
    if month == 2 {
        if is_leap_year(year) {
            29
        } else {
            28
        }
    } else if month == 4 || month == 6 || month == 9 || month == 11 {
        30
    } else {
        31
    }
}

/// The days from the first day of 1970 to a date. A day past the end of the
/// month counts on into the next one, and so does what is no month.
pub fn days_from_civil(year: i32, month: u8, day: u8) -> (days: i64)
    ensures
        days == day_number(year as int, month as int, day as int),
{
    let shifted_year: i64 = year as i64 - if month <= 2 {
        1i64
    } else {
        0i64
    };
    let era: i64 = shifted_year.checked_div_euclid(400).unwrap();
    let year_of_era: i64 = shifted_year - era * 400;
    let shifted_month: i64 = month as i64 + if month > 2 {
        -3i64
    } else {
        9i64
    };
    let day_of_year: i64 = (153 * shifted_month + 2) / 5 + day as i64 - 1;
    let day_of_era: i64 = year_of_era * 365 + year_of_era / 4 - year_of_era / 100 + day_of_year;
    proof {
        lemma_march(era as int, year_of_era as int);
        law_year_length(shifted_year as int);
        lemma_month_shift(month as int);
    }
    era * 146_097 + day_of_era - 719_468
}

/// The date with a day number.
pub fn civil_from_days(days: i64) -> (date: (i32, u8, u8))
    requires
        FIRST_CIVIL_DAY <= days <= LAST_CIVIL_DAY,
    ensures
        is_date(date.0 as int, date.1 as int, date.2 as int),
        day_number(date.0 as int, date.1 as int, date.2 as int) == days,
{
    let shifted: i64 = days + 719_468;
    let era: i64 = shifted.checked_div_euclid(146_097).unwrap();
    let day_of_era: i64 = shifted - era * 146_097;
    let year_of_era: i64 = (day_of_era - day_of_era / 1_460 + day_of_era / 36_524 - day_of_era
        / 146_096) / 365;
    proof {
        lemma_year_of_era(day_of_era as int);
    }
    let day_of_year: i64 = day_of_era - (365 * year_of_era + year_of_era / 4 - year_of_era / 100);
    let month_prime: i64 = (5 * day_of_year + 2) / 153;
    let day: i64 = day_of_year - (153 * month_prime + 2) / 5 + 1;
    let month: i64 = month_prime + if month_prime < 10 {
        3i64
    } else {
        -9i64
    };
    let year: i64 = year_of_era + era * 400 + if month <= 2 {
        1i64
    } else {
        0i64
    };
    proof {
        lemma_march(era as int, year_of_era as int);
        law_year_length(year_of_era + era * 400);
        lemma_month_of_day(day_of_year as int);
        lemma_month_shift(month as int);
        lemma_leap_period(year_of_era + 1, era as int);
        assert(day_number(year as int, month as int, day as int) == days);
        lemma_year_fits(year as int, month as int, day as int);
    }
    (year as i32, month as u8, day as u8)
}

/// The first of March of a year, by its place in its 400 years.
proof fn lemma_march(era: int, year_of_era: int)
    requires
        0 <= year_of_era < 400,
    ensures
        day_number(year_of_era + era * 400, 3, 1) == era * 146_097 + 365 * year_of_era
            + year_of_era / 4 - year_of_era / 100 - 719_468,
{
    let y = year_of_era + era * 400;
    assert(y / 4 == 100 * era + year_of_era / 4);
    assert(y / 100 == 4 * era + year_of_era / 100);
    assert(y / 400 == era);
    lemma_floor_steps(y);
}

/// Months counted from March lie 30.6 days apart, rounded.
proof fn lemma_month_shift(month: int)
    requires
        0 <= month,
    ensures
        month > 2 ==> common_days_before(month) - 59 == (153 * (month - 3) + 2) / 5,
        month <= 2 ==> common_days_before(month) + 306 == (153 * (month + 9) + 2) / 5,
{
    assert(month == 0 || month == 1 || month == 2 || month == 3 || month == 4 || month == 5 || month
        == 6 || month == 7 || month == 8 || month == 9 || month == 10 || month == 11 || month >= 12);
}

/// The month and the day of a day counted from the first of March.
proof fn lemma_month_of_day(day_of_year: int)
    requires
        0 <= day_of_year <= 365,
    ensures
        ({
            let shifted = (5 * day_of_year + 2) / 153;
            let month = if shifted < 10 {
                shifted + 3
            } else {
                shifted - 9
            };
            let day = day_of_year - (153 * shifted + 2) / 5 + 1;
            0 <= shifted <= 11 && 1 <= day && (month != 2 ==> day <= month_length(1, month)) && (
            month == 2 ==> day <= 29 && (day == 29 ==> day_of_year == 365))
        }),
{
    let shifted = (5 * day_of_year + 2) / 153;
    assert(shifted == 0 || shifted == 1 || shifted == 2 || shifted == 3 || shifted == 4 || shifted
        == 5 || shifted == 6 || shifted == 7 || shifted == 8 || shifted == 9 || shifted == 10
        || shifted == 11);
}

/// Leap years repeat after 400 years.
proof fn lemma_leap_period(year: int, era: int)
    ensures
        leap(year + era * 400) == leap(year),
{
    assert((year + era * 400) % 4 == year % 4);
    assert((year + era * 400) % 100 == year % 100);
    assert((year + era * 400) % 400 == year % 400);
}

/// In the 400 years that begin with a March, a day's year, its day within that
/// year, and which of those years have a 366th day.
proof fn lemma_year_of_era(day_of_era: int)
    requires
        0 <= day_of_era < 146_097,
    ensures
        ({
            let year = (day_of_era - day_of_era / 1_460 + day_of_era / 36_524 - day_of_era
                / 146_096) / 365;
            let day = day_of_era - (365 * year + year / 4 - year / 100);
            0 <= year < 400 && 0 <= day <= 365 && (day == 365 ==> leap(year + 1))
        }),
{
    let hundreds = if day_of_era / 36_524 >= 3 {
        3
    } else {
        day_of_era / 36_524
    };
    let rest = day_of_era - 36_524 * hundreds;
    let fours = rest / 1_461;
    let short = rest - 1_461 * fours;
    let ones = if short / 365 >= 3 {
        3
    } else {
        short / 365
    };
    let day = short - 365 * ones;
    let year = 100 * hundreds + 4 * fours + ones;
    assert(0 <= hundreds <= 3);
    assert(0 <= rest <= 36_524);
    assert(0 <= fours <= 24);
    assert(0 <= short <= 1_460);
    assert(0 <= day <= 365);
    let carry = day_of_era / 1_460 - (25 * hundreds + fours);
    assert(0 <= carry <= 1);
    assert(day == 365 ==> carry == 1);
    assert(day == 0 ==> carry == 0);
    assert(day_of_era / 36_524 - day_of_era / 146_096 == hundreds);
    assert(day_of_era - day_of_era / 1_460 + day_of_era / 36_524 - day_of_era / 146_096 == 365
        * year + day - carry);
    assert((365 * year + day - carry) / 365 == year);
    assert(year / 4 == 25 * hundreds + fours);
    assert(year / 100 == hundreds);
    assert(day_of_era - (365 * year + year / 4 - year / 100) == day);
    if day == 365 {
        assert(ones == 3);
        assert(fours < 24 || hundreds == 3);
        assert(year + 1 == 100 * hundreds + 4 * (fours + 1));
    }
}

/// Between the two outermost days every year fits `i32`.
proof fn lemma_year_fits(year: int, month: int, day: int)
    requires
        is_date(year, month, day),
        FIRST_CIVIL_DAY <= day_number(year, month, day) <= LAST_CIVIL_DAY,
    ensures
        i32::MIN <= year <= i32::MAX,
{
    lemma_day_in_year(year, month, day);
    if year > i32::MAX {
        let first = i32::MAX + 1;
        if year > first {
            lemma_years_apart(first, year);
        }
    } else if year < i32::MIN {
        let last = i32::MIN - 1;
        if year < last {
            lemma_years_apart(year, last);
        }
        law_year_length(last);
        law_year_length(year);
    }
}

/// A value moved by `delta` on the ring of the numbers from `min` to `max`. Where
/// `max` lies more than one below `min`, the ring begins with `min` and holds one
/// number less than `max` lies below.
pub open spec fn wrapped(value: int, delta: int, min: int, max: int) -> int {
    (value - min + delta) % (max - min + 1) + min
}

/// Moves a value on the ring of the numbers from `min` to `max`.
pub fn wrap_i32(value: i32, delta: i32, min: i32, max: i32) -> (result: i32)
    requires
        max - min + 1 != 0,
        i32::MIN <= max - min < i32::MAX,
        i32::MIN <= value - min <= i32::MAX,
        i32::MIN <= value - min + delta <= i32::MAX,
        max - min + 1 == -1 ==> value - min + delta != i32::MIN,
        wrapped(value as int, delta as int, min as int, max as int) <= i32::MAX,
    ensures
        result == wrapped(value as int, delta as int, min as int, max as int),
        min <= max ==> min <= result <= max,
{
    let size: i32 = max - min + 1;
    let offset: i32 = value - min + delta;
    offset.checked_rem_euclid(size).unwrap() + min
}

/// Moves a small value on the ring of the numbers from `min` to `max`.
pub fn wrap_u8(value: u8, delta: i32, min: u8, max: u8) -> (result: u8)
    requires
        max - min + 1 != 0,
        i32::MIN <= value - min + delta <= i32::MAX,
        max - min + 1 == -1 ==> value - min + delta != i32::MIN,
        wrapped(value as int, delta as int, min as int, max as int) <= u8::MAX,
    ensures
        result == wrapped(value as int, delta as int, min as int, max as int),
        min <= max ==> min <= result <= max,
{
    wrap_i32(value as i32, delta, min as i32, max as i32) as u8
}

/// The five fields of the picker, by their place.
#[derive(Clone, Copy, Debug, PartialEq, Eq, Structural)]
pub enum ManualTimeField {
    Year,
    Month,
    Day,
    Hour,
    Minute,
}

/// How many fields the picker has.
pub const PICKER_FIELDS: usize = 5;

impl ManualTimeField {
    /// The field at a place.
    pub open spec fn at(place: int) -> ManualTimeField {
        if place == 0 {
            ManualTimeField::Year
        } else if place == 1 {
            ManualTimeField::Month
        } else if place == 2 {
            ManualTimeField::Day
        } else if place == 3 {
            ManualTimeField::Hour
        } else {
            ManualTimeField::Minute
        }
    }
}

/// A date and a time of day, and which part of it is being set.
#[derive(Clone, Copy, Debug, PartialEq, Eq, Structural)]
pub struct ManualTimePicker {
    pub year: i32,
    pub month: u8,
    pub day: u8,
    pub hour: u8,
    pub minute: u8,
    pub field: usize,
}

/// The nanoseconds of a day.
pub open spec fn nanos_per_day() -> int {
    86_400_000_000_000
}

impl ManualTimePicker {
    /// Whether the picker shows a date from 1970 to 9999, a time of day and one
    /// of its fields.
    pub open spec fn valid(self) -> bool {
        &&& 1970 <= self.year <= 9999
        &&& is_date(self.year as int, self.month as int, self.day as int)
        &&& self.hour < 24
        &&& self.minute < 60
        &&& self.field < PICKER_FIELDS
    }

    /// What the picker shows when there is no clock to go by.
    pub open spec fn fallback() -> ManualTimePicker {
        ManualTimePicker { year: 2027, month: 1, day: 15, hour: 8, minute: 0, field: 0 }
    }

    /// What the picker shows when there is no clock to go by.
    pub fn default_picker() -> (picker: ManualTimePicker)
        ensures
            picker == ManualTimePicker::fallback(),
            picker.valid(),
    {
        ManualTimePicker { year: 2027, month: 1, day: 15, hour: 8, minute: 0, field: 0 }
    }

    /// The instant that the picker shows, in nanoseconds since 1970.
    pub open spec fn instant(self) -> int {
        (day_number(self.year as int, self.month as int, self.day as int) * 86_400 + self.hour
            * 3_600 + self.minute * 60) * 1_000_000_000
    }

    /// Whether the picker shows the minute that an instant lies in.
    pub open spec fn shows(self, instant: int) -> bool {
        self.valid() && self.instant() <= instant < self.instant() + 60_000_000_000
    }

    /// Whether a picker can show an instant: one from 1970 to 9999.
    pub open spec fn showable(instant: int) -> bool {
        0 <= instant < day_number(10_000, 1, 1) * nanos_per_day()
    }

    /// The picker that shows an instant, at its first field; the default where
    /// no picker can show it.
    pub open spec fn picker_at(instant: int) -> ManualTimePicker {
        if ManualTimePicker::showable(instant) {
            choose|picker: ManualTimePicker| #[trigger]
                picker.shows(instant) && picker.field == 0
        } else {
            ManualTimePicker::fallback()
        }
    }

    /// Sets the picker to the minute that an instant lies in, or to its
    /// default where a picker cannot show that instant.
    pub fn from_system_time(time: SystemTime) -> (picker: ManualTimePicker)
        requires
            time@ < (LAST_CIVIL_DAY + 1) * nanos_per_day(),
        ensures
            picker.valid(),
            picker.field == 0,
            ManualTimePicker::showable(time@) ==> picker.shows(time@),
            picker == ManualTimePicker::picker_at(time@),
    {
        let secs: i64 = time.unix_secs();
        if secs < 0 {
            return ManualTimePicker::default_picker();
        }
        let days: i64 = secs / 86_400;
        let seconds: i64 = secs % 86_400;
        let (year, month, day) = civil_from_days(days);
        proof {
            lemma_day_in_year(year as int, month as int, day as int);
            if year < 1970 {
                if year < 1969 {
                    lemma_years_apart(year as int, 1969);
                }
                law_year_length(1969);
                law_year_length(year as int);
            } else if year >= 10_000 {
                if year > 10_000 {
                    lemma_years_apart(10_000, year as int);
                }
            } else {
                if year < 9_999 {
                    lemma_years_apart(year as int, 9_999);
                }
                law_year_length(year as int);
                law_year_length(9_999);
            }
        }
        if year > 9_999 {
            return ManualTimePicker::default_picker();
        }
        let picker = ManualTimePicker {
            year,
            month,
            day,
            hour: (seconds / 3_600) as u8,
            minute: ((seconds % 3_600) / 60) as u8,
            field: 0,
        };
        proof {
            lemma_picker_at(picker, time@);
        }
        picker
    }

    /// The picker after its field was moved by `delta`. Fields wrap; a day past
    /// the end of its month moves back to the last one.
    pub open spec fn adjusted(self, delta: int) -> ManualTimePicker {
        let turned = match ManualTimeField::at(self.field as int) {
            ManualTimeField::Year => ManualTimePicker {
                year: wrapped(self.year as int, delta, 1970, 9999) as i32,
                ..self
            },
            ManualTimeField::Month => ManualTimePicker {
                month: wrapped(self.month as int, delta, 1, 12) as u8,
                ..self
            },
            ManualTimeField::Day => ManualTimePicker {
                day: wrapped(
                    self.day as int,
                    delta,
                    1,
                    month_length(self.year as int, self.month as int),
                ) as u8,
                ..self
            },
            ManualTimeField::Hour => ManualTimePicker {
                hour: wrapped(self.hour as int, delta, 0, 23) as u8,
                ..self
            },
            ManualTimeField::Minute => ManualTimePicker {
                minute: wrapped(self.minute as int, delta, 0, 59) as u8,
                ..self
            },
        };
        let last = month_length(turned.year as int, turned.month as int);
        if turned.day > last {
            ManualTimePicker { day: last as u8, ..turned }
        } else {
            turned
        }
    }

    /// How far the picker's field stands from its least value.
    pub open spec fn steps(self) -> int {
        match ManualTimeField::at(self.field as int) {
            ManualTimeField::Year => self.year - 1970,
            ManualTimeField::Month => self.month - 1,
            ManualTimeField::Day => self.day - 1,
            ManualTimeField::Hour => self.hour as int,
            ManualTimeField::Minute => self.minute as int,
        }
    }

    /// Moves the picker's field.
    pub fn adjust(&mut self, delta: i32)
        requires
            old(self).valid(),
            old(self).steps() + delta <= i32::MAX,
        ensures
            *final(self) == old(self).adjusted(delta as int),
            final(self).valid(),
    {
        if self.field == 0 {
            self.year = wrap_i32(self.year, delta, 1970, 9999);
        } else if self.field == 1 {
            self.month = wrap_u8(self.month, delta, 1, 12);
        } else if self.field == 2 {
            self.day = wrap_u8(self.day, delta, 1, days_in_month(self.year, self.month));
        } else if self.field == 3 {
            self.hour = wrap_u8(self.hour, delta, 0, 23);
        } else {
            self.minute = wrap_u8(self.minute, delta, 0, 59);
        }
        let last: u8 = days_in_month(self.year, self.month);
        if self.day > last {
            self.day = last;
        }
    }

    /// The instant that the picker shows. It is none before 1970.
    pub fn system_time(self) -> (time: SystemTime)
        requires
            0 <= day_number(self.year as int, self.month as int, self.day as int),
        ensures
            time@ == self.instant(),
    {
        let days: i64 = days_from_civil(self.year, self.month, self.day);
        SystemTime::from_unix_secs(
            days * 86_400 + self.hour as i64 * 3_600 + self.minute as i64 * 60,
        )
    }

    proof fn lemma_instant_bounds(self)
        requires
            self.valid(),
        ensures
            0 <= day_number(self.year as int, self.month as int, self.day as int) < day_number(
                10_000,
                1,
                1,
            ),
            ManualTimePicker::showable(self.instant()),
    {
        let year = self.year as int;
        lemma_day_in_year(year, self.month as int, self.day as int);
        if year > 1970 {
            lemma_years_apart(1970, year);
        }
        law_year_length(year);
        if year < 9_999 {
            lemma_years_apart(year + 1, 10_000);
        }
    }

    /// One field as it is written, in brackets where it is the one being set.
    pub open spec fn marked(self, place: int, written: Text) -> Text {
        if self.field == place {
            seq!['['] + written + seq![']']
        } else {
            written
        }
    }

    /// The picker as it is written: date and time of day with leading zeros,
    /// the field that is being set in brackets.
    pub open spec fn written(self) -> Text {
        self.marked(0, year_text(self.year as int)) + seq!['-'] + self.marked(
            1,
            two_digits(self.month as int),
        ) + seq!['-'] + self.marked(2, two_digits(self.day as int)) + seq![' '] + self.marked(
            3,
            two_digits(self.hour as int),
        ) + seq![':'] + self.marked(4, two_digits(self.minute as int))
    }

    fn mark(self, place: usize, value: String) -> (text: String)
        ensures
            text@ == self.marked(place as int, value@),
    {
        if self.field == place {
            proof {
                reveal_strlit("[");
                reveal_strlit("]");
                assert("["@ =~= seq!['[']);
                assert("]"@ =~= seq![']']);
            }
            "[".to_owned().concat(value.as_str()).concat("]")
        } else {
            value
        }
    }

    /// Writes the picker.
    pub fn label(self) -> (text: String)
        ensures
            text@ == self.written(),
    {
        proof {
            reveal_strlit("-");
            reveal_strlit(" ");
            reveal_strlit(":");
            assert("-"@ =~= seq!['-']);
            assert(" "@ =~= seq![' ']);
            assert(":"@ =~= seq![':']);
        }
        let year = self.mark(0, write_year(self.year));
        let month = self.mark(1, padded_decimal(self.month as u64, 2));
        let day = self.mark(2, padded_decimal(self.day as u64, 2));
        let hour = self.mark(3, padded_decimal(self.hour as u64, 2));
        let minute = self.mark(4, padded_decimal(self.minute as u64, 2));
        year.concat("-").concat(month.as_str()).concat("-").concat(day.as_str()).concat(" ").concat(
            hour.as_str(),
        ).concat(":").concat(minute.as_str())
    }
}

/// A number with at least two digits.
pub open spec fn two_digits(value: int) -> Text {
    zero_padded(decimal_text(value as nat), 2)
}

/// A year with at least four characters, its sign counted.
pub open spec fn year_text(year: int) -> Text {
    if year < 0 {
        seq!['-'] + zero_padded(decimal_text((-year) as nat), 3)
    } else {
        zero_padded(decimal_text(year as nat), 4)
    }
}

fn write_year(year: i32) -> (text: String)
    ensures
        text@ == year_text(year as int),
{
    if year < 0 {
        proof {
            reveal_strlit("-");
            assert("-"@ =~= seq!['-']);
        }
        "-".to_owned().concat(padded_decimal((-(year as i64)) as u64, 3).as_str())
    } else {
        padded_decimal(year as u64, 4)
    }
}

/// Two pickers that show the same instant and the same field are the same.
pub proof fn law_picker_shows_one_instant(left: ManualTimePicker, right: ManualTimePicker)
    requires
        left.valid(),
        right.valid(),
        left.field == right.field,
        left.instant() == right.instant(),
    ensures
        left == right,
{
    let days = day_number(left.year as int, left.month as int, left.day as int);
    let other = day_number(right.year as int, right.month as int, right.day as int);
    assert(days == other);
    law_day_numbers_are_distinct(
        left.year as int,
        left.month as int,
        left.day as int,
        right.year as int,
        right.month as int,
        right.day as int,
    );
}

/// A picker at its first field that shows an instant is the one for it.
pub proof fn lemma_picker_at(picker: ManualTimePicker, instant: int)
    requires
        picker.shows(instant),
        picker.field == 0,
        ManualTimePicker::showable(instant),
    ensures
        picker == ManualTimePicker::picker_at(instant),
{
    let other = ManualTimePicker::picker_at(instant);
    assert(other.shows(instant) && other.field == 0);
    assert(other.instant() == picker.instant());
    law_picker_shows_one_instant(picker, other);
}

/// Setting the clock from a picker and reading it back gives the same picker:
/// a picker that shows the instant of another, and stands at the same field,
/// is that other one.
pub proof fn law_picker_survives_the_clock(set: ManualTimePicker, read: ManualTimePicker)
    requires
        set.valid(),
        read.shows(set.instant()),
        read.field == set.field,
    ensures
        read == set,
        ManualTimePicker::showable(set.instant()),
{
    set.lemma_instant_bounds();
    assert(read.instant() == set.instant());
    law_picker_shows_one_instant(set, read);
}

/// A picker stays valid whichever way it is moved.
pub proof fn law_adjusting_keeps_the_picker_valid(picker: ManualTimePicker, delta: int)
    requires
        picker.valid(),
    ensures
        picker.adjusted(delta).valid(),
{
}

/// Moving a field there and back restores the picker, unless a shorter month
/// moved the day in between.
pub proof fn law_adjusting_back_restores(picker: ManualTimePicker, delta: int)
    requires
        picker.valid(),
        picker.field != 2 ==> picker.adjusted(delta).day == picker.day,
    ensures
        picker.adjusted(delta).adjusted(-delta) == picker,
{
    let field = ManualTimeField::at(picker.field as int);
    match field {
        ManualTimeField::Year => lemma_wrap_back(picker.year as int, delta, 1970, 9999),
        ManualTimeField::Month => lemma_wrap_back(picker.month as int, delta, 1, 12),
        ManualTimeField::Day => lemma_wrap_back(
            picker.day as int,
            delta,
            1,
            month_length(picker.year as int, picker.month as int),
        ),
        ManualTimeField::Hour => lemma_wrap_back(picker.hour as int, delta, 0, 23),
        ManualTimeField::Minute => lemma_wrap_back(picker.minute as int, delta, 0, 59),
    }
}

proof fn lemma_wrap_back(value: int, delta: int, min: int, max: int)
    requires
        min <= value <= max,
    ensures
        min <= wrapped(value, delta, min, max) <= max,
        wrapped(wrapped(value, delta, min, max), -delta, min, max) == value,
{
    let size = max - min + 1;
    let start = value - min;
    let moved = (start + delta) % size;
    vstd::arithmetic::div_mod::lemma_fundamental_div_mod(start + delta, size);
    vstd::arithmetic::div_mod::lemma_mod_bound(start + delta, size);
    let turns = (start + delta) / size;
    assert(moved - delta == start + size * (-turns)) by (nonlinear_arith)
        requires
            start + delta == size * turns + moved,
    ;
    vstd::arithmetic::div_mod::lemma_mod_multiples_vanish(-turns, start, size);
    vstd::arithmetic::div_mod::lemma_small_mod(start as nat, size as nat);
}

} // verus!
