//! Civil dates and timestamps in UTC.

use crate::text;
use vstd::prelude::*;

verus! {

/// Whether a year of the Gregorian calendar has a 29 February.
pub open spec fn is_leap_year(year: int) -> bool {
    year % 4 == 0 && (year % 100 != 0 || year % 400 == 0)
}

/// The number of days of a month.
pub open spec fn days_in_month(year: int, month: int) -> int {
    if month == 2 {
        if is_leap_year(year) {
            29
        } else {
            28
        }
    } else if month == 4 || month == 6 || month == 9 || month == 11 {
        30
    } else {
        31
    }
}

/// The number of days of a year before the first day of a month.
pub open spec fn days_before_month(year: int, month: int) -> int
    decreases month,
{
    if month <= 1 {
        0
    } else {
        days_before_month(year, month - 1) + days_in_month(year, month - 1)
    }
}

/// The number of days from 1 January of the year 0 to 1 January of a year.
pub open spec fn days_before_year(year: int) -> int {
    365 * year + (year + 3) / 4 - (year + 99) / 100 + (year + 399) / 400
}

/// Whether a year, month and day name a day of the Gregorian calendar.
pub open spec fn is_civil_date(year: int, month: int, day: int) -> bool {
    1 <= month <= 12 && 1 <= day <= days_in_month(year, month)
}

/// The number of days from 1 January 1970 to a day of the Gregorian calendar.
pub open spec fn unix_days(year: int, month: int, day: int) -> int {
    days_before_year(year) + days_before_month(year, month) + day - 1 - 719_528
}

/// The year of the four-hundred-year cycle, counted from 1 March, that a day of the cycle falls
/// in.
#[verifier::spinoff_prover]
proof fn year_of_cycle_is_right(doe: int, yoe: int)
    requires
        0 <= doe < 146_097,
        yoe == (doe - doe / 1_460 + doe / 36_524 - doe / 146_096) / 365,
    ensures
        0 <= yoe < 400,
        365 * yoe + yoe / 4 - yoe / 100 <= doe,
        doe - (365 * yoe + yoe / 4 - yoe / 100) <= 365,
        doe - (365 * yoe + yoe / 4 - yoe / 100) == 365 ==> (yoe % 4 == 3 && (yoe % 100 != 99 || yoe
            == 399)),
{
}

/// How many days of a year lie before each month of a year.
proof fn months_start_where_they_do(year: int)
    ensures
        days_before_month(year, 1) == 0,
        days_before_month(year, 2) == 31,
        ({
            let march = 59 + if is_leap_year(year) { 1int } else { 0int };
            &&& days_before_month(year, 3) == march
            &&& days_before_month(year, 4) == march + 31
            &&& days_before_month(year, 5) == march + 61
            &&& days_before_month(year, 6) == march + 92
            &&& days_before_month(year, 7) == march + 122
            &&& days_before_month(year, 8) == march + 153
            &&& days_before_month(year, 9) == march + 184
            &&& days_before_month(year, 10) == march + 214
            &&& days_before_month(year, 11) == march + 245
            &&& days_before_month(year, 12) == march + 275
            &&& days_before_month(year, 13) == march + 306
        }),
{
    reveal_with_fuel(days_before_month, 13);
}

/// The month and day of a day of the year, counted from 1 March.
#[verifier::spinoff_prover]
proof fn month_of_year_is_right(doy: int, mp: int)
    requires
        0 <= doy <= 365,
        mp == (5 * doy + 2) / 153,
    ensures
        0 <= mp <= 11,
        0 <= doy - (153 * mp + 2) / 5,
        mp < 11 ==> doy < (153 * (mp + 1) + 2) / 5,
{
}

/// The number of days from 1 March of the year 0 to 1 March of a year, and what it has to do with
/// the number of days to 1 January.
#[verifier::spinoff_prover]
proof fn march_follows_february(year: int)
    ensures
        days_before_year(year) + 59 + (if is_leap_year(year) {
            1int
        } else {
            0int
        }) == 365 * year + year / 4 - year / 100 + year / 400 + 60,
        days_before_year(year + 1) == 365 * year + year / 4 - year / 100 + year / 400 + 366,
{
    assert((year + 3) / 4 == year / 4 + if year % 4 == 0 { 0int } else { 1int });
    assert((year + 99) / 100 == year / 100 + if year % 100 == 0 { 0int } else { 1int });
    assert((year + 399) / 400 == year / 400 + if year % 400 == 0 { 0int } else { 1int });
    assert(year % 400 == 0 ==> year % 100 == 0);
    assert(year % 100 == 0 ==> year % 4 == 0);
    assert((year + 4) / 4 == year / 4 + 1);
    assert((year + 100) / 100 == year / 100 + 1);
    assert((year + 400) / 400 == year / 400 + 1);
}

/// The cycle of four hundred years.
#[verifier::spinoff_prover]
proof fn cycles_repeat(era: int, yoe: int)
    requires
        0 <= yoe < 400,
    ensures
        ({
            let year = yoe + era * 400;
            365 * year + year / 4 - year / 100 + year / 400 == era * 146_097 + 365 * yoe + yoe / 4
                - yoe / 100
        }),
        is_leap_year(yoe + era * 400 + 1) == (yoe % 4 == 3 && (yoe % 100 != 99 || yoe == 399)),
{
    let year = yoe + era * 400;
    assert(year / 4 == era * 100 + yoe / 4);
    assert(year / 100 == era * 4 + yoe / 100);
    assert(year / 400 == era);
    assert(year % 4 == yoe % 4);
    assert(year % 100 == yoe % 100);
    let next = year + 1;
    assert(next % 4 == 0 <==> yoe % 4 == 3);
    assert(next % 100 == 0 <==> yoe % 100 == 99);
    assert(next % 400 == 0 <==> yoe == 399);
}

/// A later year starts no earlier than a given year ends.
#[verifier::spinoff_prover]
proof fn years_do_not_overlap(first: int, second: int)
    requires
        first < second,
    ensures
        days_before_year(first) + 365 + (if is_leap_year(first) {
            1int
        } else {
            0int
        }) <= days_before_year(second),
{
    march_follows_february(first);
    assert((second + 3) / 4 >= (first + 4) / 4);
    assert((second + 399) / 400 >= (first + 400) / 400);
    assert((second + 99) / 100 - (first + 100) / 100 <= second - first - 1) by {
        assert((second + 99) / 100 <= (first + 100) / 100 + (second - first - 1));
    }
    assert(days_before_year(first + 1) == days_before_year(first) + 365 + if is_leap_year(first) {
        1int
    } else {
        0int
    });
}

/// A day of a year lies before the start of the next.
proof fn days_fit_in_their_year(year: int, month: int, day: int)
    requires
        is_civil_date(year, month, day),
    ensures
        0 <= days_before_month(year, month) + day - 1 < 365 + if is_leap_year(year) {
            1int
        } else {
            0int
        },
{
    months_start_where_they_do(year);
}

/// No two dates name the same day.
pub proof fn civil_dates_are_unique(
    year: int,
    month: int,
    day: int,
    other_year: int,
    other_month: int,
    other_day: int,
)
    requires
        is_civil_date(year, month, day),
        is_civil_date(other_year, other_month, other_day),
        unix_days(year, month, day) == unix_days(other_year, other_month, other_day),
    ensures
        year == other_year,
        month == other_month,
        day == other_day,
{
    days_fit_in_their_year(year, month, day);
    days_fit_in_their_year(other_year, other_month, other_day);
    if year < other_year {
        years_do_not_overlap(year, other_year);
    } else if other_year < year {
        years_do_not_overlap(other_year, year);
    }
    months_start_where_they_do(year);
}

/// The date of the day that lies the given number of days after 1 January 1970.
pub open spec fn civil_date_of(days: int) -> (int, int, int) {
    choose|year: int, month: int, day: int|
        is_civil_date(year, month, day) && unix_days(year, month, day) == days
}

/// The timestamp of an instant, by its milliseconds since the start of 1970.
pub open spec fn timestamp(millis: nat) -> Seq<char> {
    let seconds = millis / 1_000;
    let (year, month, day) = civil_date_of((seconds / 86_400) as int);
    text::digits(year as nat, 10, 4) + "-"@ + text::digits(month as nat, 10, 2) + "-"@ + text::digits(
        day as nat,
        10,
        2,
    ) + "T"@ + text::digits(seconds % 86_400 / 3_600, 10, 2) + ":"@ + text::digits(
        seconds % 3_600 / 60,
        10,
        2,
    ) + ":"@ + text::digits(seconds % 60, 10, 2) + "."@ + text::digits(millis % 1_000, 10, 3) + "Z"@
}

/// Whether an instant falls in a year that four digits spell.
pub open spec fn has_timestamp(millis: nat) -> bool {
    civil_date_of((millis / 86_400_000) as int).0 <= 9_999
}

/// The date of the day that lies the given number of days after 1 January 1970.
pub fn civil_date_from_unix_days(days: u64) -> (date: (i128, i128, i128))
    ensures
        is_civil_date(date.0 as int, date.1 as int, date.2 as int),
        unix_days(date.0 as int, date.1 as int, date.2 as int) == days,
        (date.0 as int, date.1 as int, date.2 as int) == civil_date_of(days as int),
        1970 <= date.0,
{
    let z: i128 = days as i128 + 719_468;
    let era: i128 = z / 146_097;
    let doe: i128 = z - era * 146_097;
    let yoe: i128 = (doe - doe / 1_460 + doe / 36_524 - doe / 146_096) / 365;
    proof {
        year_of_cycle_is_right(doe as int, yoe as int);
    }
    let year: i128 = yoe + era * 400;
    let doy: i128 = doe - (365 * yoe + yoe / 4 - yoe / 100);
    let mp: i128 = (5 * doy + 2) / 153;
    proof {
        month_of_year_is_right(doy as int, mp as int);
    }
    let day: i128 = doy - (153 * mp + 2) / 5 + 1;
    let month: i128 = if mp < 10 { mp + 3 } else { mp - 9 };
    let civil_year: i128 = if month <= 2 { year + 1 } else { year };
    proof {
        cycles_repeat(era as int, yoe as int);
        march_follows_february(year as int);
        months_start_where_they_do(year as int);
        months_start_where_they_do(year + 1);
        let found = civil_date_of(days as int);
        assert(is_civil_date(civil_year as int, month as int, day as int) && unix_days(
            civil_year as int,
            month as int,
            day as int,
        ) == days);
        civil_dates_are_unique(
            civil_year as int,
            month as int,
            day as int,
            found.0,
            found.1,
            found.2,
        );
        if civil_year < 1970 {
            years_do_not_overlap(civil_year as int, 1970);
            days_fit_in_their_year(civil_year as int, month as int, day as int);
        }
    }
    (civil_year, month, day)
}

/// The timestamp of an instant, by its milliseconds since the start of 1970, if its year is
/// spelled by four digits.
pub fn timestamp_text(millis: u64) -> (text: Option<String>)
    ensures
        text is Some <==> has_timestamp(millis as nat),
        text matches Some(text) ==> text@ == timestamp(millis as nat),
{
    let seconds: u64 = millis / 1_000;
    let (year, month, day) = civil_date_from_unix_days(seconds / 86_400);
    assert(millis / 86_400_000 == seconds / 86_400);
    if year > 9_999 {
        return None;
    }
    let mut text: String = String::new();
    text::append_digits(&mut text, year as u64, 10, 4);
    text.append("-");
    text::append_digits(&mut text, month as u64, 10, 2);
    text.append("-");
    text::append_digits(&mut text, day as u64, 10, 2);
    text.append("T");
    text::append_digits(&mut text, seconds % 86_400 / 3_600, 10, 2);
    text.append(":");
    text::append_digits(&mut text, seconds % 3_600 / 60, 10, 2);
    text.append(":");
    text::append_digits(&mut text, seconds % 60, 10, 2);
    text.append(".");
    text::append_digits(&mut text, millis % 1_000, 10, 3);
    text.append("Z");
    assert(text@ =~= timestamp(millis as nat));
    Some(text)
}

/// Every day since the start of 1970 has a date.
proof fn every_day_has_a_date(days: int)
    requires
        0 <= days,
    ensures
        ({
            let (year, month, day) = civil_date_of(days);
            is_civil_date(year, month, day) && unix_days(year, month, day) == days && 1970 <= year
        }),
{
    let z = days + 719_468;
    let era = z / 146_097;
    let doe = z - era * 146_097;
    let yoe = (doe - doe / 1_460 + doe / 36_524 - doe / 146_096) / 365;
    year_of_cycle_is_right(doe, yoe);
    let year = yoe + era * 400;
    let doy = doe - (365 * yoe + yoe / 4 - yoe / 100);
    let mp = (5 * doy + 2) / 153;
    month_of_year_is_right(doy, mp);
    let day = doy - (153 * mp + 2) / 5 + 1;
    let month = if mp < 10 {
        mp + 3
    } else {
        mp - 9
    };
    let civil_year = if month <= 2 {
        year + 1
    } else {
        year
    };
    cycles_repeat(era, yoe);
    march_follows_february(year);
    months_start_where_they_do(year);
    months_start_where_they_do(year + 1);
    let found = civil_date_of(days);
    assert(is_civil_date(civil_year, month, day) && unix_days(civil_year, month, day) == days);
    civil_dates_are_unique(civil_year, month, day, found.0, found.1, found.2);
    if civil_year < 1970 {
        years_do_not_overlap(civil_year, 1970);
        days_fit_in_their_year(civil_year, month, day);
    }
}

/// An instant has a timestamp exactly if it lies before the end of the year 9999.
pub proof fn an_instant_has_a_timestamp_until_the_year_ten_thousand(millis: nat)
    ensures
        has_timestamp(millis) <==> millis < 253_402_300_800_000,
{
    let days = (millis / 86_400_000) as int;
    every_day_has_a_date(days);
    let (year, month, day) = civil_date_of(days);
    days_fit_in_their_year(year, month, day);
    assert(days_before_year(10_000) == 2_932_897 + 719_528);
    if year <= 9_999 {
        years_do_not_overlap(year, 10_000);
        assert(days < 2_932_897);
    } else {
        if 10_000 < year {
            years_do_not_overlap(10_000, year);
        }
        assert(days >= 2_932_897);
    }
}

/// The days of the calendar are counted one by one, from the first day of 1970: a day of a month is
/// followed by the next day of it, the last by the first day of the next month, and the last of a
/// year by the first of the next year.
pub proof fn days_are_counted_one_by_one(year: int, month: int, day: int)
    requires
        is_civil_date(year, month, day),
    ensures
        unix_days(1970, 1, 1) == 0,
        unix_days(year, month, day) + 1 == if day < days_in_month(year, month) {
            unix_days(year, month, day + 1)
        } else if month < 12 {
            unix_days(year, month + 1, 1)
        } else {
            unix_days(year + 1, 1, 1)
        },
{
    march_follows_february(year);
    months_start_where_they_do(year);
    months_start_where_they_do(year + 1);
    assert(days_before_month(1970, 1) == 0);
}

/// The number that decimal digits spell.
pub open spec fn number_of(digits: Seq<char>) -> int
    decreases digits.len(),
{
    if digits.len() == 0 {
        0
    } else {
        number_of(digits.drop_last()) * 10 + (digits.last() as int - '0' as int)
    }
}

/// The digits of a number that fits in them spell it.
proof fn digits_spell_their_number(value: nat, width: nat)
    requires
        value < vstd::arithmetic::power::pow(10, width),
    ensures
        text::digits(value, 10, width).len() == width,
        number_of(text::digits(value, 10, width)) == value,
    decreases width,
{
    reveal(vstd::arithmetic::power::pow);
    reveal_strlit("0123456789abcdef");
    if width > 0 {
        let shorter = text::digits(value / 10, 10, (width - 1) as nat);
        assert(vstd::arithmetic::power::pow(10, width) == 10 * vstd::arithmetic::power::pow(
            10,
            (width - 1) as nat,
        ));
        digits_spell_their_number(value / 10, (width - 1) as nat);
        let all = text::digits(value, 10, width);
        assert(all.drop_last() =~= shorter);
        assert(text::digit_characters()[(value % 10) as int] as int - '0' as int == value % 10);
    }
}

/// A timestamp is read back as its instant: it spells a date, an hour, a minute, a second and a
/// millisecond, in this order, at their places, and they are those of the instant.
pub proof fn a_timestamp_tells_its_instant(millis: nat)
    requires
        millis < 253_402_300_800_000,
    ensures
        ({
            let spelled = timestamp(millis);
            let year = number_of(spelled.subrange(0, 4));
            let month = number_of(spelled.subrange(5, 7));
            let day = number_of(spelled.subrange(8, 10));
            let hour = number_of(spelled.subrange(11, 13));
            let minute = number_of(spelled.subrange(14, 16));
            let second = number_of(spelled.subrange(17, 19));
            let fraction = number_of(spelled.subrange(20, 23));
            &&& spelled.len() == 24
            &&& spelled[4] == '-' && spelled[7] == '-' && spelled[10] == 'T' && spelled[13] == ':'
                && spelled[16] == ':' && spelled[19] == '.' && spelled[23] == 'Z'
            &&& is_civil_date(year, month, day)
            &&& 0 <= hour < 24 && 0 <= minute < 60 && 0 <= second < 60 && 0 <= fraction < 1_000
            &&& unix_days(year, month, day) * 86_400_000 + hour * 3_600_000 + minute * 60_000
                + second * 1_000 + fraction == millis
        }),
{
    an_instant_has_a_timestamp_until_the_year_ten_thousand(millis);
    let seconds = millis / 1_000;
    assert(millis / 86_400_000 == seconds / 86_400);
    let (year, month, day) = civil_date_of((seconds / 86_400) as int);
    every_day_has_a_date((seconds / 86_400) as int);
    assert(vstd::arithmetic::power::pow(10, 2) == 100 && vstd::arithmetic::power::pow(10, 3)
        == 1_000 && vstd::arithmetic::power::pow(10, 4) == 10_000) by {
        reveal_with_fuel(vstd::arithmetic::power::pow, 5);
    }
    digits_spell_their_number(year as nat, 4);
    digits_spell_their_number(month as nat, 2);
    digits_spell_their_number(day as nat, 2);
    digits_spell_their_number(seconds % 86_400 / 3_600, 2);
    digits_spell_their_number(seconds % 3_600 / 60, 2);
    digits_spell_their_number(seconds % 60, 2);
    digits_spell_their_number(millis % 1_000, 3);
    reveal_strlit("-");
    reveal_strlit("T");
    reveal_strlit(":");
    reveal_strlit(".");
    reveal_strlit("Z");
    let spelled = timestamp(millis);
    assert(spelled.subrange(0, 4) =~= text::digits(year as nat, 10, 4));
    assert(spelled.subrange(5, 7) =~= text::digits(month as nat, 10, 2));
    assert(spelled.subrange(8, 10) =~= text::digits(day as nat, 10, 2));
    assert(spelled.subrange(11, 13) =~= text::digits(seconds % 86_400 / 3_600, 10, 2));
    assert(spelled.subrange(14, 16) =~= text::digits(seconds % 3_600 / 60, 10, 2));
    assert(spelled.subrange(17, 19) =~= text::digits(seconds % 60, 10, 2));
    assert(spelled.subrange(20, 23) =~= text::digits(millis % 1_000, 10, 3));
    assert(seconds / 86_400 * 86_400 + seconds % 86_400 == seconds);
    assert(seconds % 86_400 / 3_600 * 3_600 + seconds % 3_600 == seconds % 86_400);
    assert(seconds % 3_600 / 60 * 60 + seconds % 60 == seconds % 3_600);
}

} // verus!
