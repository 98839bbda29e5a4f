//! UTC calendar dates and their ISO 8601 text.
//!
//! Dates are those of the proleptic Gregorian calendar, counted in days from 1970-01-01.

use crate::number::wrap_to_i64;
use crate::text::push_padded;
use vstd::prelude::*;

verus! {

/// Whether `year` has 366 days.
pub open spec fn is_leap_year(year: int) -> bool {
    year % 4 == 0 && (year % 100 != 0 || year % 400 == 0)
}

/// The number of days in a month.
pub open spec fn days_in_month(year: int, month: int) -> int {
    if month == 2 {
        if is_leap_year(year) {
            29
        } else {
            28
        }
    } else if month == 4 || month == 6 || month == 9 || month == 11 {
        30
    } else {
        31
    }
}

/// Whether year, month and day name a date.
pub open spec fn is_date(year: int, month: int, day: int) -> bool {
    1 <= month <= 12 && 1 <= day <= days_in_month(year, month)
}

/// The number of days from 0001-01-01 to the first day of `year`.
pub open spec fn days_before_year(year: int) -> int {
    365 * (year - 1) + (year - 1) / 4 - (year - 1) / 100 + (year - 1) / 400
}

/// The number of days of `year` in front of the first day of `month`.
pub open spec fn days_before_month(year: int, month: int) -> int
    decreases month,
{
    if month <= 1 {
        0
    } else {
        days_before_month(year, month - 1) + days_in_month(year, month - 1)
    }
}

/// The number of days from 1970-01-01 to the given date.
pub open spec fn day_number(year: int, month: int, day: int) -> int {
    days_before_year(year) + days_before_month(year, month) + day - 1 - days_before_year(1970)
}

/// The days of a year in front of each month, written out.
proof fn lemma_days_before_month(year: int)
    ensures
        days_before_month(year, 1) == 0,
        days_before_month(year, 2) == 31,
        ({
            let leap: int = if is_leap_year(year) { 1 } else { 0 };
            &&& days_before_month(year, 3) == 59 + leap
            &&& days_before_month(year, 4) == 90 + leap
            &&& days_before_month(year, 5) == 120 + leap
            &&& days_before_month(year, 6) == 151 + leap
            &&& days_before_month(year, 7) == 181 + leap
            &&& days_before_month(year, 8) == 212 + leap
            &&& days_before_month(year, 9) == 243 + leap
            &&& days_before_month(year, 10) == 273 + leap
            &&& days_before_month(year, 11) == 304 + leap
            &&& days_before_month(year, 12) == 334 + leap
        }),
{
    reveal_with_fuel(days_before_month, 13);
}

/// A year is as long as its months together.
#[verifier::spinoff_prover]
proof fn lemma_year_length(year: int)
    ensures
        days_before_year(year + 1) - days_before_year(year) == if is_leap_year(year) {
            366int
        } else {
            365int
        },
{
    let y = year - 1;
    assert((y + 1) / 4 - y / 4 == if (y + 1) % 4 == 0 { 1int } else { 0int });
    assert((y + 1) / 100 - y / 100 == if (y + 1) % 100 == 0 { 1int } else { 0int });
    assert((y + 1) / 400 - y / 400 == if (y + 1) % 400 == 0 { 1int } else { 0int });
}

/// Later years start later.
proof fn lemma_years_ordered(a: int, b: int)
    requires
        a <= b,
    ensures
        days_before_year(a) <= days_before_year(b),
    decreases b - a,
{
    if a < b {
        lemma_years_ordered(a, b - 1);
        lemma_year_length(b - 1);
    }
}

/// A date lies inside its year.
proof fn lemma_date_in_year(year: int, month: int, day: int)
    requires
        is_date(year, month, day),
    ensures
        days_before_year(year) <= day_number(year, month, day) + days_before_year(1970)
            < days_before_year(year + 1),
{
    lemma_days_before_month(year);
    lemma_year_length(year);
}

/// No two dates have the same number.
pub proof fn day_number_is_injective(y1: int, m1: int, d1: int, y2: int, m2: int, d2: int)
    requires
        is_date(y1, m1, d1),
        is_date(y2, m2, d2),
        day_number(y1, m1, d1) == day_number(y2, m2, d2),
    ensures
        y1 == y2,
        m1 == m2,
        d1 == d2,
{
    lemma_date_in_year(y1, m1, d1);
    lemma_date_in_year(y2, m2, d2);
    if y1 < y2 {
        lemma_years_ordered(y1 + 1, y2);
    }
    if y2 < y1 {
        lemma_years_ordered(y2 + 1, y1);
    }
    lemma_days_before_month(y1);
}

/// The year of a 400-year era in which day `doe` of the era falls, years being counted from
/// March: the formula finds the year whose span holds the day.
proof fn lemma_year_of_era(doe: int, yoe: int)
    requires
        0 <= doe <= 146_096,
        yoe == (doe - doe / 1460 + doe / 36_524 - doe / 146_096) / 365,
    ensures
        0 <= yoe <= 399,
        0 <= doe - (365 * yoe + yoe / 4 - yoe / 100) <= 365,
        doe - (365 * yoe + yoe / 4 - yoe / 100) == 365 ==> yoe % 4 == 3 && (yoe % 100 != 99 || yoe
            == 399),
{
    let century = if doe == 146_096 {
        3
    } else {
        doe / 36_524
    };
    let r = doe - 36_524 * century;
    let quad = r / 1461;
    let d = r - 1461 * quad;
    let year = if d == 1460 {
        3
    } else {
        d / 365
    };
    assert(0 <= century <= 3 && 0 <= r <= 36_524);
    assert(0 <= quad <= 24 && 0 <= d <= 1460);
    let e: int = if 24 * century + quad + d >= 1460 {
        1
    } else {
        0
    };
    let f: int = if doe == 146_096 {
        1
    } else {
        0
    };
    assert(doe / 1460 == 25 * century + quad + e);
    assert(doe / 36_524 == century + f);
    assert(doe / 146_096 == f);
    assert((d - e) / 365 == year);
    assert(yoe == 100 * century + 4 * quad + year);
    assert(yoe / 4 == 25 * century + quad);
    assert(yoe / 100 == century);
}

/// The date of a day number.
pub open spec fn utc_date(days: int) -> (int, int, int) {
    choose|date: (int, int, int)| #[trigger]
        is_date(date.0, date.1, date.2) && day_number(date.0, date.1, date.2) == days
}

/// A date is the date of its own number.
pub proof fn utc_date_of_day_number(year: int, month: int, day: int)
    requires
        is_date(year, month, day),
    ensures
        utc_date(day_number(year, month, day)) == (year, month, day),
{
    let days = day_number(year, month, day);
    let given = (year, month, day);
    assert(is_date(given.0, given.1, given.2) && day_number(given.0, given.1, given.2) == days);
    let found = utc_date(days);
    day_number_is_injective(found.0, found.1, found.2, year, month, day);
}

/// The days from 0000-03-01 to 1970-01-01.
const MARCH_EPOCH_DAYS: i64 = 719_468;

/// Where the year after year `yoe` of an era starts, and whether it is a leap year.
proof fn lemma_year_after(era: int, yoe: int)
    requires
        0 <= yoe <= 399,
    ensures
        days_before_year(400 * era + yoe + 1) == 146_097 * era + 365 * yoe + yoe / 4 - yoe / 100,
        is_leap_year(400 * era + yoe + 1) <==> yoe % 4 == 3 && (yoe % 100 != 99 || yoe == 399),
{
    let y = 400 * era + yoe;
    assert(y / 4 == 100 * era + yoe / 4);
    assert(y / 100 == 4 * era + yoe / 100);
    assert(y / 400 == era);
}

/// The month of a day `doy` that is counted from the first of March, and the day of that month.
proof fn lemma_month_after_march(doy: int, mp: int, day: int)
    requires
        0 <= doy <= 365,
        mp == (5 * doy + 2) / 153,
        day == doy - (153 * mp + 2) / 5 + 1,
    ensures
        0 <= mp <= 11,
        mp == 0 ==> day == doy + 1 && day <= 31,
        mp == 1 ==> day == doy - 30 && day <= 30,
        mp == 2 ==> day == doy - 60 && day <= 31,
        mp == 3 ==> day == doy - 91 && day <= 30,
        mp == 4 ==> day == doy - 121 && day <= 31,
        mp == 5 ==> day == doy - 152 && day <= 31,
        mp == 6 ==> day == doy - 183 && day <= 30,
        mp == 7 ==> day == doy - 213 && day <= 31,
        mp == 8 ==> day == doy - 244 && day <= 30,
        mp == 9 ==> day == doy - 274 && day <= 31,
        mp == 10 ==> day == doy - 305 && day <= 31,
        mp == 11 ==> day == doy - 336 && day <= 29,
        day == 29 && mp == 11 ==> doy == 365,
        day >= 1,
{
}

/// A day `doy` of a year that is counted from March, with `mp` months of that year in front of
/// it, is the given date.
proof fn lemma_date_from_march(days: int, era: int, yoe: int, doy: int, mp: int)
    requires
        days + MARCH_EPOCH_DAYS == 146_097 * era + 365 * yoe + yoe / 4 - yoe / 100 + doy,
        0 <= yoe <= 399,
        0 <= doy <= 365,
        doy == 365 ==> yoe % 4 == 3 && (yoe % 100 != 99 || yoe == 399),
        mp == (5 * doy + 2) / 153,
    ensures
        0 <= mp <= 11,
        ({
            let month = if mp < 10 { mp + 3 } else { mp - 9 };
            let year = yoe + 400 * era + if month <= 2 { 1int } else { 0int };
            let day = doy - (153 * mp + 2) / 5 + 1;
            &&& 1 <= day <= 31
            &&& is_date(year, month, day)
            &&& day_number(year, month, day) == days
        }),
{
    let month = if mp < 10 { mp + 3 } else { mp - 9 };
    let march_year = yoe + 400 * era;
    let year = march_year + if month <= 2 { 1int } else { 0int };
    let day = doy - (153 * mp + 2) / 5 + 1;
    lemma_month_after_march(doy, mp, day);
    lemma_year_after(era, yoe);
    lemma_year_length(march_year);
    lemma_days_before_month(year);
    assert(days_before_year(1970) == 719_162);
    let start = days_before_year(march_year + 1);
    assert(days == start + doy - 306 - 719_162);
    if month <= 2 {
        assert(days_before_month(year, month) + day - 1 == doy - 306);
    } else {
        assert(days_before_year(year) + days_before_month(year, month) + day - 1 == start + doy - 306);
    }
}

/// The quotient of `a` by `b`, rounded down.
fn floor_div(a: i64, b: i64) -> (q: i64)
    requires
        b > 0,
    ensures
        q == a as int / b as int,
{
    if a >= 0 {
        (a as u64 / b as u64) as i64
    } else {
        let n: u64 = (-(a + 1)) as u64;
        let p: u64 = n / (b as u64);
        proof {
            let r = n as int % b as int;
            vstd::arithmetic::div_mod::lemma_fundamental_div_mod(n as int, b as int);
            assert(a == b * (-p - 1) + (b - 1 - r)) by (nonlinear_arith)
                requires
                    n == -(a + 1),
                    n == b * p + r,
            ;
            vstd::arithmetic::div_mod::lemma_fundamental_div_mod_converse(
                a as int,
                b as int,
                -p - 1,
                b - 1 - r,
            );
            assert(p <= n) by (nonlinear_arith)
                requires
                    n == b * p + r,
                    r >= 0,
                    b >= 1,
                    p >= 0,
            ;
        }
        -(p as i64) - 1
    }
}

/// Year, month and day of a day number.
fn civil_from_days(days: i64) -> (date: (i64, u64, u64))
    requires
        -200_000_000_000_000 <= days <= 200_000_000_000_000,
    ensures
        (date.0 as int, date.1 as int, date.2 as int) == utc_date(days as int),
        1 <= date.1 <= 12,
        1 <= date.2 <= 31,
        -i64::MAX < date.0,
{
    let z = days + MARCH_EPOCH_DAYS;
    let era = floor_div(z, 146_097);
    let doe = (z - era * 146_097) as u64;
    let yoe = (doe - doe / 1460 + doe / 36_524 - doe / 146_096) / 365;
    proof {
        lemma_year_of_era(doe as int, yoe as int);
    }
    let doy = doe - (365 * yoe + yoe / 4 - yoe / 100);
    let mp = (5 * doy + 2) / 153;
    proof {
        lemma_date_from_march(days as int, era as int, yoe as int, doy as int, mp as int);
    }
    let day = doy - (153 * mp + 2) / 5 + 1;
    let month = if mp < 10 {
        mp + 3
    } else {
        mp - 9
    };
    let year = yoe as i64 + era * 400 + if month <= 2 {
        1
    } else {
        0
    };
    proof {
        utc_date_of_day_number(year as int, month as int, day as int);
    }
    (year, month, day)
}

/// A year in four characters, the sign of a negative year being one of them; more characters if
/// the year needs them.
pub open spec fn year_text(year: int) -> Seq<char> {
    if year >= 0 {
        crate::text::padded(year as nat, 4)
    } else {
        seq!['-'] + crate::text::padded((-year) as nat, 3)
    }
}

/// A date in the form `1970-01-01`.
pub open spec fn date_text(date: (int, int, int)) -> Seq<char> {
    year_text(date.0) + seq!['-'] + crate::text::padded(date.1 as nat, 2) + seq!['-']
        + crate::text::padded(date.2 as nat, 2)
}

/// A time of day in the form `00:00:00.000`.
pub open spec fn time_text(second_of_day: int, millisecond: int) -> Seq<char> {
    crate::text::padded((second_of_day / 3600) as nat, 2) + seq![':'] + crate::text::padded(
        (second_of_day % 3600 / 60) as nat,
        2,
    ) + seq![':'] + crate::text::padded((second_of_day % 60) as nat, 2) + seq!['.']
        + crate::text::padded(millisecond as nat, 3)
}

/// Appends a date.
fn push_date(text: &mut String, year: i64, month: u64, day: u64)
    requires
        -i64::MAX < year,
    ensures
        final(text)@ == old(text)@ + date_text((year as int, month as int, day as int)),
{
    if year >= 0 {
        push_padded(text, year as u64, 4);
    } else {
        text.push('-');
        push_padded(text, (-year) as u64, 3);
    }
    assert(text@ =~= old(text)@ + year_text(year as int));
    text.push('-');
    push_padded(text, month, 2);
    text.push('-');
    push_padded(text, day, 2);
    assert(text@ =~= old(text)@ + date_text((year as int, month as int, day as int)));
}

/// Appends a time of day.
fn push_time(text: &mut String, second_of_day: u64, millisecond: u64)
    ensures
        final(text)@ == old(text)@ + time_text(second_of_day as int, millisecond as int),
{
    push_padded(text, second_of_day / 3600, 2);
    text.push(':');
    push_padded(text, second_of_day % 3600 / 60, 2);
    text.push(':');
    push_padded(text, second_of_day % 60, 2);
    text.push('.');
    push_padded(text, millisecond, 3);
    assert(text@ =~= old(text)@ + time_text(second_of_day as int, millisecond as int));
}

/// The UTC timestamp of a number of milliseconds since 1970. The number of whole seconds is
/// taken as a signed 64-bit number, so one beyond its range wraps around. The text has the form
/// `1970-01-01T00:00:00.000Z`.
pub open spec fn iso8601_text(ms: int) -> Seq<char> {
    let seconds = crate::number::wrapped(ms / 1000);
    date_text(utc_date(seconds / 86_400)) + seq!['T'] + time_text(seconds % 86_400, ms % 1000)
        + seq!['Z']
}

/// Every day number has a date.
proof fn lemma_every_day_has_a_date(days: int)
    ensures
        is_date(utc_date(days).0, utc_date(days).1, utc_date(days).2),
        day_number(utc_date(days).0, utc_date(days).1, utc_date(days).2) == days,
{
    let z = days + MARCH_EPOCH_DAYS;
    let era = z / 146_097;
    let doe = z % 146_097;
    let yoe = (doe - doe / 1460 + doe / 36_524 - doe / 146_096) / 365;
    lemma_year_of_era(doe, yoe);
    let doy = doe - (365 * yoe + yoe / 4 - yoe / 100);
    let mp = (5 * doy + 2) / 153;
    lemma_date_from_march(days, era, yoe, doy, mp);
    let month = if mp < 10 {
        mp + 3
    } else {
        mp - 9
    };
    let year = yoe + 400 * era + if month <= 2 {
        1int
    } else {
        0int
    };
    let day = doy - (153 * mp + 2) / 5 + 1;
    utc_date_of_day_number(year, month, day);
}

/// A later day has a later date: a later year, or a later month of the same year, or a later day of
/// the same month.
proof fn lemma_dates_ordered(a: int, b: int)
    requires
        a < b,
    ensures
        ({
            let (y1, m1, d1) = utc_date(a);
            let (y2, m2, d2) = utc_date(b);
            y1 < y2 || y1 == y2 && (m1 < m2 || m1 == m2 && d1 < d2)
        }),
{
    lemma_every_day_has_a_date(a);
    lemma_every_day_has_a_date(b);
    let (y1, m1, d1) = utc_date(a);
    let (y2, m2, d2) = utc_date(b);
    lemma_date_in_year(y1, m1, d1);
    lemma_date_in_year(y2, m2, d2);
    if y2 < y1 {
        lemma_years_ordered(y2 + 1, y1);
    }
    lemma_days_before_month(y1);
}

/// The number of the first day of the year 10000.
pub const DAY_OF_YEAR_10000: u64 = 2_932_897;

/// A day from 1970 on and before the year 10000 has a year of four digits.
proof fn lemma_four_digit_year(days: int)
    requires
        0 <= days < DAY_OF_YEAR_10000,
    ensures
        1970 <= utc_date(days).0 <= 9999,
        1 <= utc_date(days).1 <= 12,
        1 <= utc_date(days).2 <= 31,
{
    lemma_every_day_has_a_date(days);
    let (y, m, d) = utc_date(days);
    lemma_date_in_year(y, m, d);
    if y < 1970 {
        lemma_years_ordered(y + 1, 1970);
    }
    if y > 9999 {
        lemma_years_ordered(10_000, y);
    }
}

/// The parts of a timestamp: year, month and day, and hour, minute, second and millisecond.
ghost struct Parts {
    year: Seq<char>,
    month: Seq<char>,
    day: Seq<char>,
    hour: Seq<char>,
    minute: Seq<char>,
    second: Seq<char>,
    milli: Seq<char>,
}

impl Parts {
    /// The parts of a date, in the form `1970-01-01`.
    spec fn date(self) -> Seq<char> {
        self.year + seq!['-'] + self.month + seq!['-'] + self.day
    }

    /// The parts of a time of day, in the form `00:00:00.000`.
    spec fn time(self) -> Seq<char> {
        self.hour + seq![':'] + self.minute + seq![':'] + self.second + seq!['.'] + self.milli
    }

    /// The timestamp.
    #[verifier::opaque]
    spec fn stamp(self) -> Seq<char> {
        self.date() + seq!['T'] + self.time() + seq!['Z']
    }

    /// What stands in front of the hour.
    spec fn before_hour(self) -> Seq<char> {
        self.date() + seq!['T']
    }

    /// What stands behind the day.
    spec fn behind_day(self) -> Seq<char> {
        seq!['T'] + self.time() + seq!['Z']
    }

    /// What stands behind the second.
    spec fn behind_second(self) -> Seq<char> {
        seq!['.'] + self.milli + seq!['Z']
    }
}

/// Of two timestamps the one with the earlier year comes first.
proof fn lemma_year_decides(a: Parts, b: Parts)
    requires
        crate::text::is_smaller(a.year, b.year),
    ensures
        crate::text::comes_before(a.stamp(), b.stamp()),
{
    reveal(Parts::stamp);
    let rest_a = seq!['-'] + a.month + seq!['-'] + a.day + a.behind_day();
    let rest_b = seq!['-'] + b.month + seq!['-'] + b.day + b.behind_day();
    let none = Seq::<char>::empty();
    crate::text::lemma_part_decides(none, a.year, b.year, rest_a, rest_b);
    assert(a.stamp() =~= none + a.year + rest_a);
    assert(b.stamp() =~= none + b.year + rest_b);
}

/// Of two timestamps of the same year the one with the earlier month comes first.
proof fn lemma_month_decides(a: Parts, b: Parts)
    requires
        a.year == b.year,
        crate::text::is_smaller(a.month, b.month),
    ensures
        crate::text::comes_before(a.stamp(), b.stamp()),
{
    reveal(Parts::stamp);
    let front = a.year + seq!['-'];
    let rest_a = seq!['-'] + a.day + a.behind_day();
    let rest_b = seq!['-'] + b.day + b.behind_day();
    crate::text::lemma_part_decides(front, a.month, b.month, rest_a, rest_b);
    assert(a.stamp() =~= front + a.month + rest_a);
    assert(b.stamp() =~= front + b.month + rest_b);
}

/// Of two timestamps of the same month the one with the earlier day comes first.
proof fn lemma_day_decides(a: Parts, b: Parts)
    requires
        a.year == b.year,
        a.month == b.month,
        crate::text::is_smaller(a.day, b.day),
    ensures
        crate::text::comes_before(a.stamp(), b.stamp()),
{
    reveal(Parts::stamp);
    let front = a.year + seq!['-'] + a.month + seq!['-'];
    crate::text::lemma_part_decides(front, a.day, b.day, a.behind_day(), b.behind_day());
    assert(a.stamp() =~= front + a.day + a.behind_day());
    assert(b.stamp() =~= front + b.day + b.behind_day());
}

/// Of two timestamps of the same date the one with the earlier hour comes first.
proof fn lemma_hour_decides(a: Parts, b: Parts)
    requires
        a.date() == b.date(),
        crate::text::is_smaller(a.hour, b.hour),
    ensures
        crate::text::comes_before(a.stamp(), b.stamp()),
{
    reveal(Parts::stamp);
    let front = a.before_hour();
    let rest_a = seq![':'] + a.minute + seq![':'] + a.second + a.behind_second();
    let rest_b = seq![':'] + b.minute + seq![':'] + b.second + b.behind_second();
    crate::text::lemma_part_decides(front, a.hour, b.hour, rest_a, rest_b);
    assert(a.stamp() =~= front + a.hour + rest_a);
    assert(b.stamp() =~= front + b.hour + rest_b);
}

/// Of two timestamps of the same hour the one with the earlier minute comes first.
proof fn lemma_minute_decides(a: Parts, b: Parts)
    requires
        a.date() == b.date(),
        a.hour == b.hour,
        crate::text::is_smaller(a.minute, b.minute),
    ensures
        crate::text::comes_before(a.stamp(), b.stamp()),
{
    reveal(Parts::stamp);
    let front = a.before_hour() + a.hour + seq![':'];
    let rest_a = seq![':'] + a.second + a.behind_second();
    let rest_b = seq![':'] + b.second + b.behind_second();
    crate::text::lemma_part_decides(front, a.minute, b.minute, rest_a, rest_b);
    assert(a.stamp() =~= front + a.minute + rest_a);
    assert(b.stamp() =~= front + b.minute + rest_b);
}

/// Of two timestamps of the same minute the one with the earlier second comes first.
proof fn lemma_second_decides(a: Parts, b: Parts)
    requires
        a.date() == b.date(),
        a.hour == b.hour,
        a.minute == b.minute,
        crate::text::is_smaller(a.second, b.second),
    ensures
        crate::text::comes_before(a.stamp(), b.stamp()),
{
    reveal(Parts::stamp);
    let front = a.before_hour() + a.hour + seq![':'] + a.minute + seq![':'];
    crate::text::lemma_part_decides(
        front,
        a.second,
        b.second,
        a.behind_second(),
        b.behind_second(),
    );
    assert(a.stamp() =~= front + a.second + a.behind_second());
    assert(b.stamp() =~= front + b.second + b.behind_second());
}

/// Of two timestamps of the same second the one with the earlier millisecond comes first.
proof fn lemma_milli_decides(a: Parts, b: Parts)
    requires
        a.date() == b.date(),
        a.hour == b.hour,
        a.minute == b.minute,
        a.second == b.second,
        crate::text::is_smaller(a.milli, b.milli),
    ensures
        crate::text::comes_before(a.stamp(), b.stamp()),
{
    reveal(Parts::stamp);
    let front = a.before_hour() + a.hour + seq![':'] + a.minute + seq![':'] + a.second + seq!['.'];
    crate::text::lemma_part_decides(front, a.milli, b.milli, seq!['Z'], seq!['Z']);
    assert(a.stamp() =~= front + a.milli + seq!['Z']);
    assert(b.stamp() =~= front + b.milli + seq!['Z']);
}

/// The parts of the timestamp of a date, a second of the day and a millisecond.
spec fn parts_of(date: (int, int, int), second_of_day: int, millisecond: int) -> Parts {
    Parts {
        year: year_text(date.0),
        month: crate::text::padded(date.1 as nat, 2),
        day: crate::text::padded(date.2 as nat, 2),
        hour: crate::text::padded((second_of_day / 3600) as nat, 2),
        minute: crate::text::padded((second_of_day % 3600 / 60) as nat, 2),
        second: crate::text::padded((second_of_day % 60) as nat, 2),
        milli: crate::text::padded(millisecond as nat, 3),
    }
}

/// How many numbers there are of two, three and four digits at most.
proof fn lemma_widths()
    ensures
        crate::text::numbers_of(2) == 100,
        crate::text::numbers_of(3) == 1000,
        crate::text::numbers_of(4) == 10_000,
{
    reveal_with_fuel(crate::text::numbers_of, 5);
}

/// Of two timestamps, the one with the earlier date comes first.
proof fn lemma_date_decides(c: (int, int, int), d: (int, int, int), x: Parts, y: Parts)
    requires
        0 <= c.0 <= d.0 <= 9999,
        0 <= c.1 <= 99 && 0 <= d.1 <= 99,
        0 <= c.2 <= 99 && 0 <= d.2 <= 99,
        c.0 < d.0 || c.1 < d.1 || c.1 == d.1 && c.2 < d.2,
        x.year == year_text(c.0) && y.year == year_text(d.0),
        x.month == crate::text::padded(c.1 as nat, 2),
        y.month == crate::text::padded(d.1 as nat, 2),
        x.day == crate::text::padded(c.2 as nat, 2),
        y.day == crate::text::padded(d.2 as nat, 2),
    ensures
        crate::text::comes_before(x.stamp(), y.stamp()),
{
    lemma_widths();
    if c.0 < d.0 {
        crate::text::lemma_padded_ordered(c.0 as nat, d.0 as nat, 4);
        lemma_year_decides(x, y);
    } else if c.1 < d.1 {
        crate::text::lemma_padded_ordered(c.1 as nat, d.1 as nat, 2);
        lemma_month_decides(x, y);
    } else {
        crate::text::lemma_padded_ordered(c.2 as nat, d.2 as nat, 2);
        lemma_day_decides(x, y);
    }
}

/// A second of the day that comes later has a later hour, or a later minute of the same hour, or is
/// a later second of the same minute.
proof fn lemma_seconds_ordered(s: int, t: int)
    requires
        0 <= s <= t < 86_400,
    ensures
        0 <= s / 3600 <= t / 3600 < 24,
        0 <= s % 3600 / 60 < 60 && 0 <= t % 3600 / 60 < 60,
        0 <= s % 60 < 60 && 0 <= t % 60 < 60,
        s / 3600 == t / 3600 ==> s % 3600 / 60 <= t % 3600 / 60,
        s / 3600 == t / 3600 && s % 3600 / 60 == t % 3600 / 60 ==> s % 60 <= t % 60,
        s / 3600 == t / 3600 && s % 3600 / 60 == t % 3600 / 60 && s % 60 == t % 60 ==> s == t,
{
}

/// Of two timestamps of the same date, the one with the earlier time comes first.
proof fn lemma_time_decides(date: (int, int, int), s: int, m: int, t: int, n: int)
    requires
        0 <= s <= t < 86_400,
        0 <= m < 1000 && 0 <= n < 1000,
        s < t || m < n,
    ensures
        crate::text::comes_before(parts_of(date, s, m).stamp(), parts_of(date, t, n).stamp()),
{
    lemma_widths();
    lemma_seconds_ordered(s, t);
    let x = parts_of(date, s, m);
    let y = parts_of(date, t, n);
    if s / 3600 < t / 3600 {
        crate::text::lemma_padded_ordered((s / 3600) as nat, (t / 3600) as nat, 2);
        lemma_hour_decides(x, y);
    } else if s % 3600 / 60 < t % 3600 / 60 {
        crate::text::lemma_padded_ordered((s % 3600 / 60) as nat, (t % 3600 / 60) as nat, 2);
        lemma_minute_decides(x, y);
    } else if s % 60 < t % 60 {
        crate::text::lemma_padded_ordered((s % 60) as nat, (t % 60) as nat, 2);
        lemma_second_decides(x, y);
    } else {
        crate::text::lemma_padded_ordered(m as nat, n as nat, 3);
        lemma_milli_decides(x, y);
    }
}

/// A timestamp from 1970 on is made of its parts.
proof fn lemma_parts(ms: int)
    requires
        0 <= ms < 1000 * 86_400 * DAY_OF_YEAR_10000,
    ensures
        iso8601_text(ms) == parts_of(
            utc_date(ms / 1000 / 86_400),
            ms / 1000 % 86_400,
            ms % 1000,
        ).stamp(),
{
    reveal(Parts::stamp);
    assert(crate::number::wrapped(ms / 1000) == ms / 1000);
}

/// An instant that comes later falls on a later day, or later on the same day.
proof fn lemma_instants_ordered(a: int, b: int)
    requires
        0 <= a < b < 1000 * 86_400 * DAY_OF_YEAR_10000,
    ensures
        0 <= a / 1000 / 86_400 <= b / 1000 / 86_400 < DAY_OF_YEAR_10000,
        a / 1000 / 86_400 == b / 1000 / 86_400 ==> {
            &&& a / 1000 % 86_400 <= b / 1000 % 86_400
            &&& a / 1000 % 86_400 < b / 1000 % 86_400 || a % 1000 < b % 1000
        },
{
}

/// Timestamps of days are ordered as the days are.
proof fn lemma_day_stamps_ordered(p: int, q: int, s: int, m: int, t: int, n: int)
    requires
        0 <= p < q < DAY_OF_YEAR_10000,
    ensures
        crate::text::comes_before(
            parts_of(utc_date(p), s, m).stamp(),
            parts_of(utc_date(q), t, n).stamp(),
        ),
{
    lemma_four_digit_year(p);
    lemma_four_digit_year(q);
    lemma_dates_ordered(p, q);
    lemma_date_decides(
        utc_date(p),
        utc_date(q),
        parts_of(utc_date(p), s, m),
        parts_of(utc_date(q), t, n),
    );
}

/// Timestamps before the year 10000 are ordered, character by character, as their instants are.
pub proof fn timestamps_are_ordered_as_instants(a: int, b: int)
    requires
        0 <= a < b < 1000 * 86_400 * DAY_OF_YEAR_10000,
    ensures
        crate::text::comes_before(iso8601_text(a), iso8601_text(b)),
{
    let (p, q) = (a / 1000 / 86_400, b / 1000 / 86_400);
    let (s, t) = (a / 1000 % 86_400, b / 1000 % 86_400);
    lemma_parts(a);
    lemma_parts(b);
    lemma_instants_ordered(a, b);
    if p < q {
        lemma_day_stamps_ordered(p, q, s, a % 1000, t, b % 1000);
    } else {
        lemma_time_decides(utc_date(p), s, a % 1000, t, b % 1000);
    }
}

/// The UTC timestamp of a number of milliseconds since 1970-01-01.
pub fn iso8601_millis(ms: u128) -> (text: String)
    ensures
        text@ == iso8601_text(ms as int),
{
    let seconds = wrap_to_i64(ms / 1000);
    let millis = (ms % 1000) as u64;
    let days = floor_div(seconds, 86_400);
    let sod = (seconds as i128 - days as i128 * 86_400) as u64;
    let (year, month, day) = civil_from_days(days);
    let mut text = String::new();
    push_date(&mut text, year, month, day);
    text.push('T');
    push_time(&mut text, sod, millis);
    text.push('Z');
    assert(text@ =~= iso8601_text(ms as int));
    text
}

/// The calendar: day zero is the first of January 1970, and each day is followed by the next day of
/// its month, or the first day of the next month, or the first day of the next year. February has 29
/// days in years that four divides and a hundred does not, and in those that 400 divides.
pub proof fn days_follow_each_other(days: int)
    ensures
        utc_date(0) == (1970int, 1int, 1int),
        ({
            let (year, month, day) = utc_date(days);
            let leap = (year % 4 == 0 && year % 100 != 0) || year % 400 == 0;
            let last: int = if month == 2 && leap {
                29
            } else if month == 2 {
                28
            } else if month == 4 || month == 6 || month == 9 || month == 11 {
                30
            } else {
                31
            };
            &&& 1 <= month <= 12
            &&& 1 <= day <= last
            &&& day < last ==> utc_date(days + 1) == (year, month, day + 1)
            &&& day == last && month < 12 ==> utc_date(days + 1) == (year, month + 1, 1int)
            &&& day == last && month == 12 ==> utc_date(days + 1) == (year + 1, 1int, 1int)
        }),
{
    reveal_with_fuel(days_before_month, 2);
    assert(is_date(1970, 1, 1));
    assert(day_number(1970, 1, 1) == 0);
    utc_date_of_day_number(1970, 1, 1);
    lemma_every_day_has_a_date(days);
    let (year, month, day) = utc_date(days);
    if day < days_in_month(year, month) {
        utc_date_of_day_number(year, month, day + 1);
    } else if month < 12 {
        utc_date_of_day_number(year, month + 1, 1);
    } else {
        lemma_days_before_month(year);
        lemma_days_before_month(year + 1);
        lemma_year_length(year);
        utc_date_of_day_number(year + 1, 1, 1);
    }
}

/// Where the parts of a date stand in a timestamp, when each has its usual width.
proof fn lemma_date_places(p: Parts, y: int)
    requires
        p.year.len() == y,
        p.month.len() == 2,
        p.day.len() == 2,
    ensures
        p.stamp().take(y) == p.year,
        p.stamp()[y] == '-',
        p.stamp().subrange(y + 1, y + 3) == p.month,
        p.stamp()[y + 3] == '-',
        p.stamp().subrange(y + 4, y + 6) == p.day,
        p.stamp()[y + 6] == 'T',
{
    reveal(Parts::stamp);
    let text = p.stamp();
    let date = p.date();
    assert(date.len() == y + 6);
    assert(text.take(y + 6) =~= date);
    assert(text.take(y) =~= p.year) by {
        assert(date.take(y) =~= p.year);
        assert(text.take(y) =~= text.take(y + 6).take(y));
    }
    assert(text[y] == text.take(y + 6)[y]);
    assert(text[y + 3] == text.take(y + 6)[y + 3]);
    assert(text.subrange(y + 1, y + 3) =~= p.month) by {
        assert(date.subrange(y + 1, y + 3) =~= p.month);
        assert(text.subrange(y + 1, y + 3) =~= text.take(y + 6).subrange(y + 1, y + 3));
    }
    assert(text.subrange(y + 4, y + 6) =~= p.day) by {
        assert(date.subrange(y + 4, y + 6) =~= p.day);
        assert(text.subrange(y + 4, y + 6) =~= text.take(y + 6).subrange(y + 4, y + 6));
    }
}

/// Where the parts of a time stand in a timestamp, when each has its usual width and the time starts
/// at `t`.
proof fn lemma_time_places(p: Parts, t: int)
    requires
        p.year.len() + 7 == t,
        p.month.len() == 2,
        p.day.len() == 2,
        p.hour.len() == 2,
        p.minute.len() == 2,
        p.second.len() == 2,
        p.milli.len() == 3,
    ensures
        p.stamp().len() == t + 13,
        p.stamp().subrange(t, t + 2) == p.hour,
        p.stamp()[t + 2] == ':',
        p.stamp().subrange(t + 3, t + 5) == p.minute,
        p.stamp()[t + 5] == ':',
        p.stamp().subrange(t + 6, t + 8) == p.second,
        p.stamp()[t + 8] == '.',
        p.stamp().subrange(t + 9, t + 12) == p.milli,
        p.stamp()[t + 12] == 'Z',
{
    reveal(Parts::stamp);
    let text = p.stamp();
    let time = p.time();
    assert(p.date().len() == t - 1);
    assert(time.len() == 12);
    assert(text.subrange(t, t + 12) =~= time);
    assert(text.subrange(t, t + 2) =~= p.hour) by {
        assert(time.subrange(0, 2) =~= p.hour);
        assert(text.subrange(t, t + 2) =~= text.subrange(t, t + 12).subrange(0, 2));
    }
    assert(text[t + 2] == text.subrange(t, t + 12)[2]);
    assert(text.subrange(t + 3, t + 5) =~= p.minute) by {
        assert(time.subrange(3, 5) =~= p.minute);
        assert(text.subrange(t + 3, t + 5) =~= text.subrange(t, t + 12).subrange(3, 5));
    }
    assert(text[t + 5] == text.subrange(t, t + 12)[5]);
    assert(text.subrange(t + 6, t + 8) =~= p.second) by {
        assert(time.subrange(6, 8) =~= p.second);
        assert(text.subrange(t + 6, t + 8) =~= text.subrange(t, t + 12).subrange(6, 8));
    }
    assert(text[t + 8] == text.subrange(t, t + 12)[8]);
    assert(text.subrange(t + 9, t + 12) =~= p.milli) by {
        assert(time.subrange(9, 12) =~= p.milli);
        assert(text.subrange(t + 9, t + 12) =~= text.subrange(t, t + 12).subrange(9, 12));
    }
}

/// The seconds of a day are those of its hours, minutes and seconds.
proof fn lemma_seconds_of_day(s: int)
    requires
        0 <= s < 86_400,
    ensures
        s / 3600 * 3600 + s % 3600 / 60 * 60 + s % 60 == s,
        0 <= s / 3600 < 24,
        0 <= s % 3600 / 60 < 60,
{
}

/// The parts of a timestamp have their usual widths and stand for their numbers.
proof fn lemma_part_values(date: (int, int, int), s: int, milli: int)
    requires
        1 <= date.1 <= 12,
        1 <= date.2 <= 31,
        0 <= s < 86_400,
        0 <= milli < 1000,
    ensures
        ({
            let p = parts_of(date, s, milli);
            &&& p.month.len() == 2 && crate::text::decimal_value(p.month) == date.1
            &&& p.day.len() == 2 && crate::text::decimal_value(p.day) == date.2
            &&& p.hour.len() == 2 && crate::text::decimal_value(p.hour) == s / 3600
            &&& p.minute.len() == 2 && crate::text::decimal_value(p.minute) == s % 3600 / 60
            &&& p.second.len() == 2 && crate::text::decimal_value(p.second) == s % 60
            &&& p.milli.len() == 3 && crate::text::decimal_value(p.milli) == milli
        }),
{
    lemma_widths();
    lemma_seconds_of_day(s);
    crate::text::lemma_padded(date.1 as nat, 2);
    crate::text::lemma_padded(date.2 as nat, 2);
    crate::text::lemma_padded((s / 3600) as nat, 2);
    crate::text::lemma_padded((s % 3600 / 60) as nat, 2);
    crate::text::lemma_padded((s % 60) as nat, 2);
    crate::text::lemma_padded(milli as nat, 3);
    crate::text::padded_notation_stands_for_its_number(date.1 as nat, 2);
    crate::text::padded_notation_stands_for_its_number(date.2 as nat, 2);
    crate::text::padded_notation_stands_for_its_number((s / 3600) as nat, 2);
    crate::text::padded_notation_stands_for_its_number((s % 3600 / 60) as nat, 2);
    crate::text::padded_notation_stands_for_its_number((s % 60) as nat, 2);
    crate::text::padded_notation_stands_for_its_number(milli as nat, 3);
}

/// A timestamp is made of its parts, whatever its year is.
proof fn lemma_stamp_of_parts(ms: int)
    ensures
        ({
            let seconds = crate::number::wrapped(ms / 1000);
            iso8601_text(ms) == parts_of(
                utc_date(seconds / 86_400),
                seconds % 86_400,
                ms % 1000,
            ).stamp()
        }),
{
    reveal(Parts::stamp);
}

/// The time of day can be read off a timestamp, from its end, whatever its date is: hour, minute,
/// second and millisecond are those that have passed of the day, of which the whole seconds are
/// counted as a signed number of 64 bits.
pub proof fn timestamps_tell_their_time_of_day(ms: int)
    requires
        0 <= ms,
    ensures
        ({
            let text = iso8601_text(ms);
            let n = text.len() as int;
            let day = crate::number::wrapped(ms / 1000) / 86_400;
            let hour = crate::text::decimal_value(text.subrange(n - 13, n - 11));
            let minute = crate::text::decimal_value(text.subrange(n - 10, n - 8));
            let second = crate::text::decimal_value(text.subrange(n - 7, n - 5));
            &&& n >= 24
            &&& text[n - 14] == 'T' && text[n - 11] == ':' && text[n - 8] == ':'
            &&& text[n - 5] == '.' && text[n - 1] == 'Z'
            &&& text[n - 20] == '-' && text[n - 17] == '-'
            &&& text.take(n - 20) == year_text(utc_date(day).0)
            &&& crate::text::decimal_value(text.subrange(n - 19, n - 17)) == utc_date(day).1
            &&& crate::text::decimal_value(text.subrange(n - 16, n - 14)) == utc_date(day).2
            &&& 0 <= hour < 24
            &&& 0 <= minute < 60
            &&& 0 <= second < 60
            &&& crate::number::wrapped(ms / 1000) == day * 86_400 + hour * 3600 + minute * 60
                + second
            &&& crate::text::decimal_value(text.subrange(n - 4, n - 1)) == ms % 1000
        }),
{
    let seconds = crate::number::wrapped(ms / 1000);
    let s = seconds % 86_400;
    let day = seconds / 86_400;
    let date = utc_date(day);
    let p = parts_of(date, s, ms % 1000);
    let y = p.year.len() as int;
    lemma_stamp_of_parts(ms);
    lemma_date_in_range(day);
    lemma_part_values(date, s, ms % 1000);
    years_stand_for_their_number(date.0);
    lemma_date_places(p, y);
    lemma_time_places(p, y + 7);
    lemma_seconds_of_day(s);
}

/// The month and the day of a date lie in their ranges.
proof fn lemma_date_in_range(days: int)
    ensures
        1 <= utc_date(days).1 <= 12,
        1 <= utc_date(days).2 <= 31,
{
    lemma_every_day_has_a_date(days);
}

/// Numbers of more than four digits, and magnitudes of more than three, are longer than that.
proof fn lemma_long_numbers(year: int)
    ensures
        year > 9999 ==> crate::text::decimal(year as nat).len() > 4,
        year < -999 ==> crate::text::decimal((-year) as nat).len() > 3,
{
    reveal_with_fuel(crate::text::decimal, 6);
}

/// A year is written in at least four characters, and a negative one with a sign and its magnitude.
pub proof fn years_stand_for_their_number(year: int)
    ensures
        year >= 0 ==> year_text(year).len() >= 4 && crate::text::decimal_value(year_text(year))
            == year,
        year < 0 ==> year_text(year).len() >= 4 && year_text(year)[0] == '-'
            && crate::text::decimal_value(year_text(year).skip(1)) == -year,
        -999 <= year <= 9999 ==> year_text(year).len() == 4,
        year > 9999 ==> year_text(year)[0] != '0',
        year < -999 ==> year_text(year)[1] != '0',
{
    lemma_widths();
    lemma_long_numbers(year);
    if year >= 0 {
        crate::text::padded_notation_stands_for_its_number(year as nat, 4);
        crate::text::decimal_notation_stands_for_its_number(year as nat);
        if year <= 9999 {
            crate::text::lemma_padded(year as nat, 4);
        }
    } else {
        crate::text::padded_notation_stands_for_its_number((-year) as nat, 3);
        crate::text::decimal_notation_stands_for_its_number((-year) as nat);
        if year >= -999 {
            crate::text::lemma_padded((-year) as nat, 3);
        }
        assert(year_text(year).skip(1) =~= crate::text::padded((-year) as nat, 3));
    }
}

} // verus!
