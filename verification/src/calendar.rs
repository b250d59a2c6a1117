//! Proleptic Gregorian calendar arithmetic: leap years, month lengths,
//! day numbers counted from 1970-01-01 and Monday-first weekdays.

use vstd::prelude::*;

verus! {

/// Gregorian leap rule.
pub open spec fn is_leap_year(year: int) -> bool {
    year % 4 == 0 && (year % 100 != 0 || year % 400 == 0)
}

/// Length of `month` in `year`; months outside 1-12 count 30 days.
pub open spec fn month_length(year: int, month: int) -> int {
    if month == 1 || month == 3 || month == 5 || month == 7 || month == 8 || month == 10
        || month == 12 {
        31
    } else if month == 4 || month == 6 || month == 9 || month == 11 {
        30
    } else if month == 2 {
        if is_leap_year(year) {
            29
        } else {
            28
        }
    } else {
        30
    }
}

/// Days in a month (1-12), Gregorian leap rule.
pub fn days_in_month(year: i32, month: u32) -> (n: u32)
    ensures
        n == month_length(year as int, month as int),
{
    match month {
        1 | 3 | 5 | 7 | 8 | 10 | 12 => 31,
        4 | 6 | 9 | 11 => 30,
        2 => {
            let r4 = year.checked_rem_euclid(4);
            let r100 = year.checked_rem_euclid(100);
            let r400 = year.checked_rem_euclid(400);
            if r4 == Some(0i32) && (r100 != Some(0i32) || r400 == Some(0i32)) {
                29
            } else {
                28
            }
        },
        _ => 30,
    }
}


/// Day number, counted from 1970-01-01, of the civil date `year-month-day`
/// (months March-based internally, 400-year eras of 146097 days).
pub open spec fn civil_day_number(year: int, month: int, day: int) -> int {
    let y = if 0 <= month <= 2 { year - 1 } else { year };
    let era = y / 400;
    let yoe = y % 400;
    let mp = (month + 9) % 12;
    let doy = (153 * mp + 2) / 5 + day - 1;
    let doe = yoe * 365 + yoe / 4 - yoe / 100 + doy;
    era * 146097 + doe - 719468
}

/// Whether every intermediate of the day-number computation fits an `i32`.
pub open spec fn civil_day_number_fits(year: int, month: int, day: int) -> bool {
    let y = if 0 <= month <= 2 { year - 1 } else { year };
    let era = y / 400;
    let yoe = y % 400;
    let mp = (month + 9) % 12;
    let doy = (153 * mp + 2) / 5 + day - 1;
    let doe = yoe * 365 + yoe / 4 - yoe / 100 + doy;
    &&& i32::MIN <= y
    &&& month + 9 <= i32::MAX
    &&& (153 * mp + 2) / 5 + day <= i32::MAX
    &&& i32::MIN <= doy <= i32::MAX
    &&& i32::MIN <= doe <= i32::MAX
    &&& i32::MIN <= era * 146097 <= i32::MAX
    &&& i32::MIN <= era * 146097 + doe <= i32::MAX
    &&& i32::MIN <= era * 146097 + doe - 719468 <= i32::MAX
}

/// Civil date `(year, month, day)` of a day number counted from 1970-01-01.
pub open spec fn civil_date(days: int) -> (int, int, int) {
    let z = days + 719468;
    let era = z / 146097;
    let doe = z % 146097;
    let yoe = (doe - doe / 1460 + doe / 36524 - doe / 146096) / 365;
    let y = yoe + era * 400;
    let doy = doe - (365 * yoe + yoe / 4 - yoe / 100);
    let mp = (5 * doy + 2) / 153;
    let day = doy - (153 * mp + 2) / 5 + 1;
    let month = if mp < 10 { mp + 3 } else { mp - 9 };
    (if month <= 2 { y + 1 } else { y }, month, day)
}

/// Largest day number whose civil date the `i32` computation reaches.
pub open spec fn max_day_number() -> int {
    i32::MAX - 719468
}

/// A real calendar date: month 1-12 and day within the month.
pub open spec fn is_valid_date(year: int, month: int, day: int) -> bool {
    1 <= month <= 12 && 1 <= day <= month_length(year, month)
}


/// First day of year-of-era `yoe` within its era (March-based years).
pub open spec fn year_start(yoe: int) -> int {
    365 * yoe + yoe / 4 - yoe / 100
}

/// Year of era recovered from a day of era.
pub open spec fn year_of_era(doe: int) -> int {
    (doe - doe / 1460 + doe / 36524 - doe / 146096) / 365
}

/// Length of the March-based year `yoe` of an era: it ends with the
/// February of the following calendar year.
pub open spec fn era_year_length(yoe: int) -> int {
    if is_leap_year(yoe + 1) { 366 } else { 365 }
}

proof fn lemma_year_of_era_of_start(yoe: int, doy: int)
    requires
        0 <= yoe < 400,
        0 <= doy < era_year_length(yoe),
    ensures
        0 <= year_start(yoe) + doy < 146097,
        year_of_era(year_start(yoe) + doy) == yoe,
{
}


proof fn lemma_year_of_era_bounds(doe: int)
    requires
        0 <= doe < 146097,
    ensures
        0 <= year_of_era(doe) < 400,
        0 <= doe - year_start(year_of_era(doe)) < era_year_length(year_of_era(doe)),
{
}


proof fn lemma_leap_shift_by_eras(era: int, yoe: int)
    ensures
        is_leap_year(era * 400 + yoe) == is_leap_year(yoe),
{
    assert((era * 400 + yoe) % 4 == yoe % 4) by(nonlinear_arith);
    assert((era * 400 + yoe) % 100 == yoe % 100) by(nonlinear_arith);
    assert((era * 400 + yoe) % 400 == yoe % 400) by(nonlinear_arith);
}

proof fn lemma_month_of_day_of_year(doy: int, cal_year: int)
    requires
        0 <= doy < (if is_leap_year(cal_year) { 366int } else { 365int }),
    ensures
        ({
            let mp = (5 * doy + 2) / 153;
            let day = doy - (153 * mp + 2) / 5 + 1;
            let month = if mp < 10 { mp + 3 } else { mp - 9 };
            &&& 0 <= mp < 12
            &&& (month + 9) % 12 == mp
            &&& 1 <= month <= 12
            &&& 1 <= day <= month_length(cal_year, month)
        }),
{
}

/// Every day number names a real date, and numbering that date gives the
/// day number back.
pub proof fn lemma_day_number_of_civil_date(days: int)
    ensures
        is_valid_date(civil_date(days).0, civil_date(days).1, civil_date(days).2),
        civil_day_number(civil_date(days).0, civil_date(days).1, civil_date(days).2) == days,
{
    let z = days + 719468;
    let era = z / 146097;
    let doe = z % 146097;
    assert(z == era * 146097 + doe);
    lemma_year_of_era_bounds(doe);
    let yoe = year_of_era(doe);
    let doy = doe - year_start(yoe);
    lemma_leap_shift_by_eras(era, yoe + 1);
    let cal_year = era * 400 + (yoe + 1);
    lemma_month_of_day_of_year(doy, cal_year);
    let y = yoe + era * 400;
    assert((y / 400) == era && y % 400 == yoe) by(nonlinear_arith)
        requires y == yoe + era * 400, 0 <= yoe < 400;
}

/// Numbering a real date and converting back gives the same date.
pub proof fn lemma_civil_date_of_day_number(year: int, month: int, day: int)
    requires
        is_valid_date(year, month, day),
    ensures
        civil_date(civil_day_number(year, month, day)) == (year, month, day),
{
    let y = if 0 <= month <= 2 { year - 1 } else { year };
    let era = y / 400;
    let yoe = y % 400;
    lemma_leap_shift_by_eras(era, yoe + 1);
    assert(y == era * 400 + yoe);
    let mp = (month + 9) % 12;
    let doy = (153 * mp + 2) / 5 + day - 1;
    lemma_year_of_era_of_start(yoe, doy);
    let doe = year_start(yoe) + doy;
    assert((era * 146097 + doe) / 146097 == era) by(nonlinear_arith)
        requires 0 <= doe < 146097;
    assert((era * 146097 + doe) % 146097 == doe) by(nonlinear_arith)
        requires 0 <= doe < 146097;
}


/// The date after a real date.
pub open spec fn next_date(year: int, month: int, day: int) -> (int, int, int) {
    if day < month_length(year, month) {
        (year, month, day + 1)
    } else if month < 12 {
        (year, month + 1, 1)
    } else {
        (year + 1, 1, 1)
    }
}

/// Day 0 is Thursday 1970-01-01.
pub proof fn lemma_epoch()
    ensures
        civil_day_number(1970, 1, 1) == 0,
        civil_date(0) == (1970int, 1int, 1int),
{
    lemma_civil_date_of_day_number(1970, 1, 1);
}

/// Within a month, day numbers run consecutively.
pub proof fn lemma_day_number_within_month(year: int, month: int, day: int)
    ensures
        civil_day_number(year, month, day) == civil_day_number(year, month, 1) + day - 1,
{
}

/// The next date has the next day number: together with `lemma_epoch`
/// this pins the numbering to the real calendar.
pub proof fn lemma_next_date_is_next_day(year: int, month: int, day: int)
    requires
        is_valid_date(year, month, day),
    ensures
        is_valid_date(next_date(year, month, day).0, next_date(year, month, day).1, next_date(year, month, day).2),
        civil_day_number(next_date(year, month, day).0, next_date(year, month, day).1, next_date(year, month, day).2)
            == civil_day_number(year, month, day) + 1,
{
    let y = if month <= 2 { year - 1 } else { year };
    let era = y / 400;
    let yoe = y % 400;
    assert(y == era * 400 + yoe);
    lemma_leap_shift_by_eras(era, yoe + 1);
    if day < month_length(year, month) {
    } else if month != 2 {
        if month == 12 {
            assert(year + 1 - 1 == y);
        }
    } else {
        // End of February: the March-based year (and maybe the era) turns over.
        let y2 = year;
        assert(y2 == y + 1);
        if yoe < 399 {
            assert(y2 / 400 == era && y2 % 400 == yoe + 1) by(nonlinear_arith)
                requires y2 == era * 400 + yoe + 1, 0 <= yoe < 399;
        } else {
            assert(y2 / 400 == era + 1 && y2 % 400 == 0) by(nonlinear_arith)
                requires y2 == era * 400 + 400;
        }
    }
}


/// Days since 1970-01-01 for a civil date (Hinnant algorithm). Month and
/// day enter the computation as `i32`, as the widget code passes them.
pub fn days_from_civil(year: i32, month: u32, day: u32) -> (n: i32)
    requires
        civil_day_number_fits(year as int, (month as i32) as int, (day as i32) as int),
    ensures
        n == civil_day_number(year as int, (month as i32) as int, (day as i32) as int),
{
    let m: i32 = month as i32;
    let d: i32 = day as i32;
    assert((month <= 2) == (0 <= (month as i32) && (month as i32) <= 2)) by(bit_vector);
    let y: i32 = if month <= 2 { year - 1 } else { year };
    let era: i32 = match y.checked_div_euclid(400) {
        Some(q) => q,
        None => 0,
    };
    let yoe: i32 = match y.checked_rem_euclid(400) {
        Some(r) => r,
        None => 0,
    };
    let mp: i32 = match (m + 9).checked_rem_euclid(12) {
        Some(r) => r,
        None => 0,
    };
    let doy: i32 = (153 * mp + 2) / 5 + d - 1;
    let doe: i32 = yoe * 365 + yoe / 4 - yoe / 100 + doy;
    era * 146097 + doe - 719468
}

/// Civil date for days since 1970-01-01.
pub fn civil_from_days(days: i32) -> (date: (i32, u32, u32))
    requires
        days <= max_day_number(),
    ensures
        date.0 as int == civil_date(days as int).0,
        date.1 as int == civil_date(days as int).1,
        date.2 as int == civil_date(days as int).2,
        is_valid_date(date.0 as int, date.1 as int, date.2 as int),
{
    proof {
        lemma_day_number_of_civil_date(days as int);
    }
    let z: i32 = days + 719468;
    let era: i32 = match z.checked_div_euclid(146097) {
        Some(q) => q,
        None => 0,
    };
    let doe: i32 = match z.checked_rem_euclid(146097) {
        Some(r) => r,
        None => 0,
    };
    proof {
        lemma_year_of_era_bounds(doe as int);
    }
    let yoe: i32 = (doe - doe / 1460 + doe / 36524 - doe / 146096) / 365;
    let y: i32 = yoe + era * 400;
    let doy: i32 = doe - (365 * yoe + yoe / 4 - yoe / 100);
    let mp: i32 = (5 * doy + 2) / 153;
    let day: u32 = (doy - (153 * mp + 2) / 5 + 1) as u32;
    let month: u32 = (if mp < 10 { mp + 3 } else { mp - 9 }) as u32;
    (if month <= 2 { y + 1 } else { y }, month, day)
}


/// Monday-first weekday index (0 = Monday, 6 = Sunday) of a day number.
pub open spec fn weekday_of_day_number(days: int) -> int {
    (days + 3) % 7
}

/// Monday-first weekday index (0-6) of the first of the month.
pub fn first_weekday(year: i32, month: u32) -> (w: u32)
    requires
        civil_day_number_fits(year as int, (month as i32) as int, 1),
        civil_day_number(year as int, (month as i32) as int, 1) + 3 <= i32::MAX,
    ensures
        w as int == weekday_of_day_number(civil_day_number(year as int, (month as i32) as int, 1)),
        w < 7,
{
    // 1970-01-01 was a Thursday (index 3).
    let n: i32 = days_from_civil(year, month, 1);
    let w: i32 = match (n + 3).checked_rem_euclid(7) {
        Some(r) => r,
        None => 0,
    };
    w as u32
}

/// The first of the next month falls `month_length` weekdays later.
pub proof fn lemma_first_weekday_of_next_month(year: int, month: int)
    requires
        1 <= month <= 12,
    ensures
        ({
            let (ny, nm) = if month < 12 { (year, month + 1) } else { (year + 1, 1int) };
            weekday_of_day_number(civil_day_number(ny, nm, 1)) == (weekday_of_day_number(
                civil_day_number(year, month, 1),
            ) + month_length(year, month)) % 7
        }),
{
    let len = month_length(year, month);
    lemma_day_number_within_month(year, month, len);
    lemma_next_date_is_next_day(year, month, len);
    let (ny, nm) = if month < 12 { (year, month + 1) } else { (year + 1, 1int) };
    assert(next_date(year, month, len) == (ny, nm, 1int));
    lemma_weekday_shift(civil_day_number(year, month, 1), len);
}

proof fn lemma_weekday_shift(n: int, k: int)
    ensures
        weekday_of_day_number(n + k) == (weekday_of_day_number(n) + k) % 7,
{
    assert((n + k + 3) % 7 == ((n + 3) % 7 + k) % 7) by(nonlinear_arith);
}

/// The day number of today's date given the seconds since 1970 read from
/// the clock, held to the last day the `i32` arithmetic reaches.
pub open spec fn clock_day_number(unix_seconds: u64) -> int {
    let days = unix_seconds as int / 86400;
    if days <= max_day_number() {
        days
    } else {
        max_day_number()
    }
}

#[verifier::external_type_specification]
#[verifier::external_body]
pub struct ExSystemTime(std::time::SystemTime);

/// Calls `std::time::SystemTime::now`. Nothing is stated of the value:
/// it is whatever the system clock holds.
#[verifier::external_body]
fn system_time_now() -> (t: std::time::SystemTime) {
    std::time::SystemTime::now()
}

/// Calls `SystemTime::duration_since(UNIX_EPOCH)`; a time before 1970
/// (the call's error) gives `None`. Nothing is stated of the span: it
/// depends on the clock reading passed in, of which nothing is known.
#[verifier::external_body]
fn since_epoch(t: &std::time::SystemTime) -> (d: Option<std::time::Duration>) {
    match t.duration_since(std::time::UNIX_EPOCH) {
        Ok(d) => Some(d),
        Err(_) => None,
    }
}

/// Calls `Duration::as_secs`. Nothing is stated of the count: the span
/// is opaque here.
#[verifier::external_body]
fn whole_seconds(d: &std::time::Duration) -> (secs: u64) {
    d.as_secs()
}

/// Civil date of a clock reading in seconds since 1970-01-01.
pub fn civil_from_unix_seconds(unix_seconds: u64) -> (date: (i32, u32, u32))
    ensures
        date.0 as int == civil_date(clock_day_number(unix_seconds)).0,
        date.1 as int == civil_date(clock_day_number(unix_seconds)).1,
        date.2 as int == civil_date(clock_day_number(unix_seconds)).2,
        is_valid_date(date.0 as int, date.1 as int, date.2 as int),
{
    let days: u64 = unix_seconds / 86400;
    let limit: u64 = 2147483647 - 719468;
    let d: i32 = if days <= limit { days as i32 } else { limit as i32 };
    civil_from_days(d)
}

/// Whole seconds since 1970-01-01 on the system clock (0 for a clock set
/// before 1970). Nothing is known of the reading.
pub(crate) fn clock_seconds() -> (secs: u64) {
    let now = system_time_now();
    match since_epoch(&now) {
        Some(d) => whole_seconds(&d),
        None => 0,
    }
}

/// Today as (year, month, day) from the system clock: the civil date of
/// some clock reading (1970-01-01 for a clock set before 1970).
pub fn today() -> (date: (i32, u32, u32))
    ensures
        is_valid_date(date.0 as int, date.1 as int, date.2 as int),
        exists|secs: u64|
            date.0 as int == civil_date(clock_day_number(secs)).0 && date.1 as int == civil_date(
                clock_day_number(secs),
            ).1 && date.2 as int == civil_date(clock_day_number(secs)).2,
{
    civil_from_unix_seconds(clock_seconds())
}

} // verus!
