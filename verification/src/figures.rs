//! What the figures that the user reads say: numbers, playtimes and clocks.

use crate::calendar::{day_number, law_year_length, lemma_picker_at, ManualTimePicker};
use crate::chrome::clock_text;
use crate::playtime::{playtime_text, PlaytimeModel};
use crate::preferences::scale_of;
use crate::text::{decimal_text, is_digit, number_in, signed_text, without_percent, Text};
use vstd::prelude::*;
use vstd::string::*;

verus! {

/// A number is written digit by digit: below ten it is one digit, and one digit
/// more stands behind ten times a number and that digit.
pub proof fn law_numbers_are_written_in_tens(number: nat, last: nat)
    requires
        last < 10,
    ensures
        number == 0 ==> decimal_text(last) == seq![(48 + last) as char],
        number > 0 ==> decimal_text(10 * number + last) == decimal_text(number).push(
            (48 + last) as char,
        ),
{
    assert((10 * number + last) / 10 == number);
    assert((10 * number + last) % 10 == last);
}

proof fn lemma_digits(number: nat)
    ensures
        decimal_text(number).len() > 0,
        forall|i: int|
            0 <= i < decimal_text(number).len() ==> '0' <= #[trigger] decimal_text(number)[i]
                <= '9',
    decreases number,
{
    if number >= 10 {
        lemma_digits(number / 10);
    }
}

/// Two numbers are written differently.
pub proof fn law_numbers_read_apart(left: nat, right: nat)
    requires
        decimal_text(left) == decimal_text(right),
    ensures
        left == right,
    decreases left,
{
    lemma_digits(left / 10);
    lemma_digits(right / 10);
    let first = decimal_text(left);
    let second = decimal_text(right);
    if left < 10 {
        assert(second.len() == 1);
        assert(first[0] == second[0]);
    } else if right < 10 {
        assert(first.len() == 1);
    } else {
        assert(first.drop_last() =~= decimal_text(left / 10));
        assert(second.drop_last() =~= decimal_text(right / 10));
        law_numbers_read_apart(left / 10, right / 10);
        assert(first.last() == second.last());
    }
}

/// A number below zero is written with a minus in front.
pub proof fn law_signs_stand_in_front(number: nat)
    requires
        number > 0,
    ensures
        signed_text(-number) == seq!['-'] + decimal_text(number),
        signed_text(number as int) == decimal_text(number),
{
}

/// The nanoseconds of a number of hours, minutes and a rest.
pub open spec fn nanos(hours: nat, minutes: nat, rest: nat) -> nat {
    (hours * 60 + minutes) * 60_000_000_000 + rest
}

proof fn lemma_whole_minutes(hours: nat, minutes: nat, rest: nat)
    requires
        minutes < 60,
        rest < 60_000_000_000,
    ensures
        nanos(hours, minutes, rest) / 1_000_000_000 / 60 == hours * 60 + minutes,
        (hours * 60 + minutes) / 60 == hours,
        (hours * 60 + minutes) % 60 == minutes,
{
    let whole = hours * 60 + minutes;
    assert((whole * 60_000_000_000 + rest) / 1_000_000_000 / 60 == whole);
}

/// A playtime is written by its whole hours and the minutes beside them, with a
/// tilde before a rough figure: `1h 10m` for seventy minutes and however many
/// seconds. Below an hour the minutes stand alone, and below a minute it says so.
pub proof fn law_playtimes_tell_hours_and_minutes(
    hours: nat,
    minutes: nat,
    rest: nat,
    approximate: bool,
)
    requires
        minutes < 60,
        rest < 60_000_000_000,
    ensures
        ({
            let told = playtime_text(
                PlaytimeModel { duration: nanos(hours, minutes, rest), approximate },
            );
            let lead = if approximate {
                "Played ~"@
            } else {
                "Played "@
            };
            &&& hours > 0 ==> told == lead + decimal_text(hours) + "h "@ + decimal_text(minutes)
                + "m"@
            &&& hours == 0 && minutes > 0 ==> told == lead + decimal_text(minutes) + "m"@
            &&& hours == 0 && minutes == 0 ==> told == lead + "<1m"@
        }),
{
    lemma_whole_minutes(hours, minutes, rest);
}

proof fn lemma_same_figure(left: nat, right: nat, after: Text, other: Text)
    requires
        decimal_text(left) + after == decimal_text(right) + other,
        after.len() > 0,
        other.len() > 0,
        !('0' <= after[0] <= '9'),
        !('0' <= other[0] <= '9'),
    ensures
        left == right,
        after == other,
{
    let first = decimal_text(left);
    let second = decimal_text(right);
    lemma_digits(left);
    lemma_digits(right);
    let whole = first + after;
    if first.len() < second.len() {
        assert(whole[first.len() as int] == after[0]);
        assert((second + other)[first.len() as int] == second[first.len() as int]);
    } else if second.len() < first.len() {
        assert((second + other)[second.len() as int] == other[0]);
        assert(whole[second.len() as int] == first[second.len() as int]);
    }
    assert(first =~= whole.take(first.len() as int));
    assert(second =~= (second + other).take(second.len() as int));
    assert(after =~= whole.skip(first.len() as int));
    assert(other =~= (second + other).skip(second.len() as int));
    law_numbers_read_apart(left, right);
}

spec fn figure(playtime: PlaytimeModel) -> Text {
    let minutes = playtime.duration / 60_000_000_000;
    if minutes == 0 {
        "<1m"@
    } else if minutes < 60 {
        decimal_text(minutes) + "m"@
    } else {
        decimal_text(minutes / 60) + ("h "@ + (decimal_text(minutes % 60) + "m"@))
    }
}

proof fn lemma_figure(playtime: PlaytimeModel)
    ensures
        playtime_text(playtime) == (if playtime.approximate {
            "Played ~"@
        } else {
            "Played "@
        }) + figure(playtime),
{
    let lead = if playtime.approximate {
        "Played ~"@
    } else {
        "Played "@
    };
    let minutes = playtime.duration / 60_000_000_000;
    assert(playtime.duration / 1_000_000_000 / 60 == minutes);
    if minutes >= 60 {
        let hours = decimal_text(minutes / 60);
        let rest = decimal_text(minutes % 60);
        assert(lead + hours + "h "@ + rest + "m"@ =~= lead + (hours + ("h "@ + (rest + "m"@))));
    } else if minutes > 0 {
        assert(lead + decimal_text(minutes) + "m"@ =~= lead + (decimal_text(minutes) + "m"@));
    }
}

/// Two playtimes, both exact or both rough, that differ in their whole minutes
/// are written differently.
pub proof fn law_playtimes_read_apart(left: PlaytimeModel, right: PlaytimeModel)
    requires
        left.approximate == right.approximate,
        playtime_text(left) == playtime_text(right),
    ensures
        left.duration / 60_000_000_000 == right.duration / 60_000_000_000,
{
    reveal_strlit("Played ~");
    reveal_strlit("Played ");
    reveal_strlit("<1m");
    reveal_strlit("h ");
    reveal_strlit("m");
    let lead = if left.approximate {
        "Played ~"@
    } else {
        "Played "@
    };
    lemma_figure(left);
    lemma_figure(right);
    let first = figure(left);
    let second = figure(right);
    assert(first =~= playtime_text(left).skip(lead.len() as int));
    assert(second =~= playtime_text(right).skip(lead.len() as int));
    assert(first == second);
    let a = left.duration / 60_000_000_000;
    let b = right.duration / 60_000_000_000;
    lemma_digits(a);
    lemma_digits(b);
    lemma_digits(a / 60);
    lemma_digits(b / 60);
    if a == 0 || b == 0 {
        assert(first[0] == second[0]);
    } else if a < 60 && b < 60 {
        lemma_same_figure(a, b, "m"@, "m"@);
    } else if a < 60 {
        lemma_same_figure(a, b / 60, "m"@, "h "@ + (decimal_text(b % 60) + "m"@));
        assert("m"@[0] == ("h "@ + (decimal_text(b % 60) + "m"@))[0]);
    } else if b < 60 {
        lemma_same_figure(a / 60, b, "h "@ + (decimal_text(a % 60) + "m"@), "m"@);
        assert("m"@[0] == ("h "@ + (decimal_text(a % 60) + "m"@))[0]);
    } else {
        let one = decimal_text(a % 60) + "m"@;
        let two = decimal_text(b % 60) + "m"@;
        lemma_same_figure(a / 60, b / 60, "h "@ + one, "h "@ + two);
        assert(one =~= ("h "@ + one).skip(2));
        assert(two =~= ("h "@ + two).skip(2));
        lemma_same_figure(a % 60, b % 60, "m"@, "m"@);
    }
}

/// The clock of the status shows the hour and, in two digits, the minute of the
/// day, on every day from the first of 1970 on.
pub proof fn law_clock_tells_the_time_of_day(day: nat, hour: nat, minute: nat, rest: nat)
    requires
        hour < 24,
        minute < 60,
        rest < 60_000_000_000,
    ensures
        clock_text((day * 86_400_000_000_000 + nanos(hour, minute, rest)) as int) == decimal_text(
            hour,
        ) + seq![':', (48 + minute / 10) as char, (48 + minute % 10) as char],
{
    reveal_strlit(":");
    let time = (day * 86_400_000_000_000 + nanos(hour, minute, rest)) as int;
    let second = (rest / 1_000_000_000) as int;
    assert(time / 1_000_000_000 == day * 86_400 + (hour * 60 + minute) * 60 + second);
    assert((day * 86_400 + (hour * 60 + minute) * 60 + second) % 86_400 == (hour * 60 + minute) * 60
        + second);
    let of_day = (hour * 60 + minute) * 60 + second;
    assert(of_day / 3_600 == hour);
    assert(of_day % 3_600 / 60 == minute);
    let digits = decimal_text(minute);
    if minute >= 10 {
        assert(decimal_text(minute / 10) == seq![(48 + minute / 10) as char]);
        assert(digits =~= seq![(48 + minute / 10) as char, (48 + minute % 10) as char]);
    }
    assert(clock_text(time) =~= decimal_text(hour) + seq![
        ':',
        (48 + minute / 10) as char,
        (48 + minute % 10) as char,
    ]);
}

proof fn lemma_figure_is_read(number: nat)
    requires
        number < 65_536,
    ensures
        crate::text::digits_value(decimal_text(number)) == number,
    decreases number,
{
    if number >= 10 {
        lemma_figure_is_read(number / 10);
        assert(decimal_text(number).drop_last() =~= decimal_text(number / 10));
    } else {
        assert(decimal_text(number).drop_last() =~= Seq::empty());
        assert(crate::text::digits_value(decimal_text(number).drop_last()) == 0);
    }
}

/// A size of the text is taken from the number in front of the percent sign and
/// kept between a hundred and two hundred percent.
pub proof fn law_text_size_is_what_the_percents_say(percent: nat)
    requires
        percent < 65_536,
    ensures
        scale_of(decimal_text(percent) + "%"@) == (if percent < 100 {
            100
        } else if percent > 200 {
            200
        } else {
            percent as int
        }),
{
    reveal_strlit("%");
    let digits = decimal_text(percent);
    let text = digits + "%"@;
    lemma_digits(percent);
    lemma_figure_is_read(percent);
    assert(text.drop_last() =~= digits);
    assert(text.last() == '%');
    assert(digits.last() == digits[digits.len() - 1]);
    assert(without_percent(digits) == digits);
    assert(without_percent(text) == digits);
    assert(digits[0] != '+');
    assert forall|i: int| 0 <= i < digits.len() implies is_digit(digits[i]) by {}
    assert(number_in(digits) == Some(percent));
}

/// The days of a month: February has 28, and 29 in every fourth year but those
/// that a hundred divides and four hundred does not.
pub open spec fn days_of(year: int, month: int) -> int {
    if month == 2 {
        if year % 4 == 0 && (year % 100 != 0 || year % 400 == 0) {
            29
        } else {
            28
        }
    } else if month == 4 || month == 6 || month == 9 || month == 11 {
        30
    } else {
        31
    }
}

/// The first day of 1970 is day zero, and each date has the number behind that of
/// the date before: within a month, from the end of a month to the next and from
/// the end of a year to the next.
pub proof fn law_days_follow_each_other(year: int, month: int, day: int)
    requires
        1 <= month <= 12,
    ensures
        day_number(1970, 1, 1) == 0,
        day_number(year, month, day + 1) == day_number(year, month, day) + 1,
        month < 12 ==> day_number(year, month + 1, 1) == day_number(
            year,
            month,
            days_of(year, month),
        ) + 1,
        day_number(year + 1, 1, 1) == day_number(year, 12, 31) + 1,
{
    law_year_length(year);
    assert(month == 1 || month == 2 || month == 3 || month == 4 || month == 5 || month == 6
        || month == 7 || month == 8 || month == 9 || month == 10 || month == 11 || month == 12);
}

/// A picker shows just the dates of the calendar, the hours of a day and the
/// minutes of an hour, from 1970 to 9999.
pub proof fn law_pickers_show_dates_of_the_calendar(picker: ManualTimePicker)
    ensures
        picker.valid() == {
            &&& 1970 <= picker.year <= 9999
            &&& 1 <= picker.month <= 12
            &&& 1 <= picker.day <= days_of(picker.year as int, picker.month as int)
            &&& picker.hour <= 23
            &&& picker.minute <= 59
            &&& picker.field <= 4
        },
{
}

/// The instant of a picker is so many nanoseconds after the first instant of 1970
/// as there are in its days, hours and minutes.
pub proof fn law_pickers_stand_for_an_instant(picker: ManualTimePicker)
    ensures
        picker.instant() == day_number(
            picker.year as int,
            picker.month as int,
            picker.day as int,
        ) * 86_400_000_000_000 + picker.hour * 3_600_000_000_000 + picker.minute * 60_000_000_000,
{
}

/// A number below a hundred in two digits.
pub open spec fn in_two(number: int) -> Text {
    seq![(48 + number / 10) as char, (48 + number % 10) as char]
}

/// A text in brackets, or without.
pub open spec fn bracketed(when: bool, text: Text) -> Text {
    if when {
        seq!['['] + text + seq![']']
    } else {
        text
    }
}

proof fn lemma_in_two(number: int)
    requires
        0 <= number < 100,
    ensures
        crate::calendar::two_digits(number) == in_two(number),
{
    if number >= 10 {
        assert(decimal_text((number / 10) as nat) == seq![(48 + number / 10) as char]);
    }
    assert(crate::calendar::two_digits(number) =~= in_two(number));
}

proof fn lemma_in_four(year: int)
    requires
        1970 <= year <= 9999,
    ensures
        crate::calendar::year_text(year) == in_two(year / 100) + in_two(year % 100),
{
    let number = year as nat;
    assert(decimal_text(number / 1000) == seq![(48 + number / 1000) as char]);
    assert(number / 100 / 10 == number / 1000);
    assert(decimal_text(number / 100) == decimal_text(number / 1000).push(
        (48 + number / 100 % 10) as char,
    ));
    assert(number / 10 / 10 == number / 100);
    assert(decimal_text(number / 10) == decimal_text(number / 100).push(
        (48 + number / 10 % 10) as char,
    ));
    assert(decimal_text(number) == decimal_text(number / 10).push((48 + number % 10) as char));
    assert(number % 100 / 10 == number / 10 % 10);
    assert(number % 100 % 10 == number % 10);
    assert(crate::calendar::year_text(year) =~= in_two(year / 100) + in_two(year % 100));
}

/// A picker is written as year, month, day, hour and minute with leading zeros, and
/// the field that is being set stands in brackets.
pub proof fn law_pickers_are_written_out(picker: ManualTimePicker)
    requires
        picker.valid(),
    ensures
        picker.written() == bracketed(
            picker.field == 0,
            in_two(picker.year as int / 100) + in_two(picker.year as int % 100),
        ) + seq!['-'] + bracketed(picker.field == 1, in_two(picker.month as int)) + seq!['-']
            + bracketed(picker.field == 2, in_two(picker.day as int)) + seq![' '] + bracketed(
            picker.field == 3,
            in_two(picker.hour as int),
        ) + seq![':'] + bracketed(picker.field == 4, in_two(picker.minute as int)),
{
    lemma_in_four(picker.year as int);
    lemma_in_two(picker.month as int);
    lemma_in_two(picker.day as int);
    lemma_in_two(picker.hour as int);
    lemma_in_two(picker.minute as int);
}

proof fn lemma_percents_leave_the_front(text: Text)
    requires
        text.len() > 0,
        text[0] != '%',
    ensures
        without_percent(text).len() > 0,
        without_percent(text)[0] == text[0],
    decreases text.len(),
{
    if text.last() == '%' {
        lemma_percents_leave_the_front(text.drop_last());
    }
}

/// What is no number leaves the text at a hundred percent.
pub proof fn law_words_are_no_text_size(word: Text)
    requires
        word.len() > 0,
        !('0' <= word[0] <= '9'),
        word[0] != '+',
        word[0] != '%',
    ensures
        scale_of(word) == 100,
{
    lemma_percents_leave_the_front(word);
    let rest = without_percent(word);
    assert(crate::text::unsigned_part(rest) == rest);
    assert(!is_digit(rest[0]));
}

/// A time that no picker can show leaves the picker at eight on the fifteenth of
/// January 2027.
pub proof fn law_unshowable_times_have_a_stand_in(instant: int)
    requires
        instant < 0 || instant >= day_number(10_000, 1, 1) * 86_400_000_000_000,
    ensures
        ManualTimePicker::picker_at(instant) == (ManualTimePicker {
            year: 2027,
            month: 1,
            day: 15,
            hour: 8,
            minute: 0,
            field: 0,
        }),
{
}

/// The picker for a time is the one whose minute it falls into, with the year to be
/// set first.
pub proof fn law_a_time_has_its_picker(picker: ManualTimePicker, rest: int)
    requires
        picker.valid(),
        picker.field == 0,
        0 <= rest < 60_000_000_000,
        picker.instant() + rest < day_number(10_000, 1, 1) * 86_400_000_000_000,
        0 <= picker.instant(),
    ensures
        ManualTimePicker::picker_at(picker.instant() + rest) == picker,
{
    lemma_picker_at(picker, picker.instant() + rest);
}

} // verus!
