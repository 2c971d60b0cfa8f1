//! Dates, instants and time zones.
//!
//! An instant is a number of seconds or milliseconds since the epoch. A day is numbered from the
//! first day of year one, which is day one. A time zone is known by its name; its offset from UTC
//! at an instant comes from the tables of `chrono_tz`, under which everything here is stated.

use vstd::prelude::*;

verus! {

/// First and last year of the dates that chrono can hold.
pub const MIN_YEAR: i32 = -262143;

pub const MAX_YEAR: i32 = 262142;

/// First and last day of those years.
pub const MIN_DAY: i32 = -95746129;

pub const MAX_DAY: i32 = 95745399;

/// First and last second of those days, since the epoch.
pub const MIN_SECOND: i64 = -8334601228800;

pub const MAX_SECOND: i64 = 8210266876799;

/// The number of the day of the epoch.
pub const EPOCH_DAY: i64 = 719163;

/// Whether a year of the Gregorian calendar has a leap day.
pub open spec fn is_leap(year: int) -> bool {
    year % 4 == 0 && (year % 100 != 0 || year % 400 == 0)
}

/// The number of days of a month.
pub open spec fn days_in_month(year: int, month: int) -> int {
    if month == 2 {
        if is_leap(year) {
            29
        } else {
            28
        }
    } else if month == 4 || month == 6 || month == 9 || month == 11 {
        30
    } else {
        31
    }
}

/// The number of days of a year before a month.
pub open spec fn days_before_month(year: int, month: int) -> int
    decreases month,
{
    if month <= 1 {
        0
    } else {
        days_before_month(year, month - 1) + days_in_month(year, month - 1)
    }
}

/// Whether a day of a month of a year is a date.
pub open spec fn is_date(year: int, month: int, day: int) -> bool {
    1 <= month <= 12 && 1 <= day <= days_in_month(year, month)
}

/// The number of a date, counted from the first day of year one, which is day one.
pub open spec fn day_number(year: int, month: int, day: int) -> int {
    365 * (year - 1) + (year - 1) / 4 - (year - 1) / 100 + (year - 1) / 400 + days_before_month(
        year,
        month,
    ) + day
}

/// Whether chrono can hold a date.
pub open spec fn held_date(year: int, month: int, day: int) -> bool {
    MIN_YEAR <= year <= MAX_YEAR && is_date(year, month, day)
}

/// Whether chrono can hold an instant.
pub open spec fn in_range(second: int) -> bool {
    MIN_SECOND <= second <= MAX_SECOND
}

/// `chrono::NaiveDate::from_ymd_opt` and `Datelike::num_days_from_ce`: the number of a date of the
/// proleptic Gregorian calendar; nothing where there is no such date or the year is out of range.
#[verifier::external_body]
pub(crate) fn number_of_date(year: i32, month: u32, day: u32) -> (r: Option<i32>)
    ensures
        match r {
            Some(n) => held_date(year as int, month as int, day as int) && n == day_number(
                year as int,
                month as int,
                day as int,
            ) && MIN_DAY <= n <= MAX_DAY,
            None => !held_date(year as int, month as int, day as int),
        },
{
    let date = chrono::NaiveDate::from_ymd_opt(year, month, day)?;
    Some(chrono::Datelike::num_days_from_ce(&date))
}

/// `chrono::NaiveDate::from_num_days_from_ce_opt` and the year, month and day of the result: the
/// date of a day number; nothing where the day is out of range.
#[verifier::external_body]
pub(crate) fn date_of_number(number: i32) -> (r: Option<(i32, u32, u32)>)
    ensures
        match r {
            Some((y, m, d)) => held_date(y as int, m as int, d as int) && day_number(
                y as int,
                m as int,
                d as int,
            ) == number,
            None => !(MIN_DAY <= number <= MAX_DAY),
        },
{
    let date = chrono::NaiveDate::from_num_days_from_ce_opt(number)?;
    Some((chrono::Datelike::year(&date), chrono::Datelike::month(&date), chrono::Datelike::day(&date)))
}

/// `chrono::Local::now` and the number of its day: today in the zone of the machine. Nothing is
/// said of it but that it is a day of chrono's dates, or the one before or after them.
#[verifier::external_body]
pub(crate) fn local_today() -> (number: i32)
    ensures
        MIN_DAY - 1 <= number <= MAX_DAY + 1,
{
    chrono::Datelike::num_days_from_ce(&chrono::Local::now())
}

/// `chrono::Local` at an instant: the offset from UTC, in seconds, of the zone of the machine. The
/// zone being the machine's, nothing is said of the offset but that it is less than a day. chrono
/// panics where the machine is set, by `TZ`, to a zone that is a day or more from UTC.
#[verifier::external_body]
pub(crate) fn local_offset_at(second: i64) -> (r: Option<i32>)
    ensures
        match r {
            Some(offset) => in_range(second as int) && -86400 < offset < 86400,
            None => !in_range(second as int),
        },
{
    let at = chrono::DateTime::from_timestamp(second, 0)?;
    let local = at.with_timezone(&chrono::Local);
    Some(chrono::Offset::fix(local.offset()).local_minus_utc())
}

/// Whether the table of time zones has a name.
pub uninterp spec fn known_zone(name: Seq<char>) -> bool;

/// The offset from UTC, in seconds, of a zone at an instant.
pub uninterp spec fn zone_offset(name: Seq<char>, second: int) -> int;

/// What the clocks of a zone show at an instant, given in seconds as if it were UTC.
pub open spec fn clock_at(name: Seq<char>, second: int) -> int {
    second + zone_offset(name, second)
}

/// Whether the offset of a zone changes at most once in the two days around an instant: from
/// `before` to `after`, at `at`.
pub open spec fn changes_once(
    name: Seq<char>,
    second: int,
    at: int,
    before: int,
    after: int,
) -> bool {
    &&& -86400 < before < 86400
    &&& -86400 < after < 86400
    &&& forall|t: int|
        in_range(t) && second - 86400 <= t <= second + 86400 ==> #[trigger] zone_offset(name, t) == (
        if t < at {
            before
        } else {
            after
        })
}

/// Whether the clocks of a zone show a time at no instant that chrono can hold.
pub open spec fn never_shown(name: Seq<char>, local: int) -> bool {
    forall|t: int| in_range(t) ==> #[trigger] clock_at(name, t) != local
}

/// Whether the clocks of a zone show a time at an instant, and at no later one.
pub open spec fn is_latest_showing(name: Seq<char>, local: int, second: int) -> bool {
    &&& in_range(second)
    &&& clock_at(name, second) == local
    &&& forall|t: int| in_range(t) && t > second ==> #[trigger] clock_at(name, t) != local
}

/// Whether the clocks of a zone skip a time at an instant: they show an earlier one just before and
/// a later one then.
pub open spec fn is_gap_end(name: Seq<char>, local: int, second: int) -> bool {
    in_range(second - 1) && in_range(second) && clock_at(name, second - 1) < local < clock_at(
        name,
        second,
    )
}

/// `chrono_tz::Tz::from_str`: whether the embedded table of time zones has a name.
#[verifier::external_body]
pub(crate) fn is_known_zone(name: &str) -> (r: bool)
    ensures
        r == known_zone(name@),
{
    <chrono_tz::Tz as std::str::FromStr>::from_str(name).is_ok()
}

/// More than the number of names in the table of time zones.
pub const MAX_ZONES: usize = 600;

/// The name at a position of the table of time zones; nothing behind its end.
pub uninterp spec fn zone_name(position: int) -> Option<Seq<char>>;

/// `chrono_tz::TZ_VARIANTS` and `Tz::name`: the name at a position of the embedded table of time
/// zones. The table has 597 names, and each of them is one that `Tz::from_str` knows. They are in
/// increasing order, and none stands there twice.
#[verifier::external_body]
pub(crate) fn zone_at(position: usize) -> (r: Option<&'static str>)
    ensures
        match r {
            Some(name) => zone_name(position as int) == Some(name@) && known_zone(name@) && position
                < 597 && (position > 0 ==> zone_name(position - 1) is Some && crate::str_map::lex_lt(
                zone_name(position - 1)->0,
                name@,
            )),
            None => zone_name(position as int) is None && position >= 597,
        },
{
    let zone = chrono_tz::TZ_VARIANTS.get(position)?;
    Some(zone.name())
}

/// `chrono_tz::Tz` at an instant: the offset from UTC of a zone, in seconds. Nothing comes back
/// where the zone is unknown or chrono cannot hold the instant. chrono's fixed offsets are less
/// than a day. Two changes of a zone are more than two days apart, in all of the embedded table.
#[verifier::external_body]
pub(crate) fn zone_offset_at(name: &str, second: i64) -> (r: Option<i32>)
    ensures
        match r {
            Some(offset) => known_zone(name@) && in_range(second as int) && offset == zone_offset(
                name@,
                second as int,
            ) && -86400 < offset < 86400 && exists|at: int, before: int, after: int|
                changes_once(name@, second as int, at, before, after),
            None => !(known_zone(name@) && in_range(second as int)),
        },
{
    let tz = <chrono_tz::Tz as std::str::FromStr>::from_str(name).ok()?;
    let at = chrono::DateTime::from_timestamp(second, 0)?;
    Some(chrono::Offset::fix(at.with_timezone(&tz).offset()).local_minus_utc())
}

/// `chrono::TimeZone::from_local_datetime` of a `chrono_tz::Tz`, and `latest` of the result: the
/// last instant at which the clocks of a zone show a time; nothing where they show it at none that
/// chrono can hold. The spans of a zone follow each other on its clocks too, in all of the embedded
/// table, and at most two of them share a time, so the two that the search looks at are all.
#[verifier::external_body]
pub(crate) fn latest_instant(name: &str, local: i64) -> (r: Option<i64>)
    requires
        known_zone(name@),
        in_range(local as int),
    ensures
        match r {
            Some(at) => is_latest_showing(name@, local as int, at as int),
            None => never_shown(name@, local as int),
        },
{
    let tz = <chrono_tz::Tz as std::str::FromStr>::from_str(name).ok()?;
    let naive = chrono::DateTime::from_timestamp(local, 0)?.naive_utc();
    let at = chrono::TimeZone::from_local_datetime(&tz, &naive).latest()?;
    Some(at.timestamp())
}

/// `chrono_tz::GapInfo::new` and its end: the instant at which the clocks of a zone skip a time;
/// nothing where they do not skip it. They skip a time at most once, as the spans of a zone follow
/// each other on its clocks in all of the embedded table.
#[verifier::external_body]
pub(crate) fn end_of_gap(name: &str, local: i64) -> (r: Option<i64>)
    requires
        known_zone(name@),
        in_range(local as int),
    ensures
        match r {
            Some(at) => is_gap_end(name@, local as int, at as int) && forall|t: int| #[trigger]
                is_gap_end(name@, local as int, t) ==> t == at,
            None => forall|t: int| !#[trigger] is_gap_end(name@, local as int, t),
        },
{
    let tz = <chrono_tz::Tz as std::str::FromStr>::from_str(name).ok()?;
    let naive = chrono::DateTime::from_timestamp(local, 0)?.naive_utc();
    let gap = chrono_tz::GapInfo::new(&naive, &tz)?;
    Some(gap.end?.timestamp())
}

// ---------------------------------------------------------------------------------------------
// Arithmetic
// ---------------------------------------------------------------------------------------------

/// The whole seconds of a number of milliseconds, rounded down.
pub fn whole_seconds(millis: i64) -> (q: i64)
    ensures
        q == millis as int / 1000,
{
    match millis.checked_div_euclid(1000) {
        Some(q) => q,
        None => 0,
    }
}

/// The whole days of a number of seconds, rounded down.
pub fn whole_days(seconds: i64) -> (q: i64)
    ensures
        q == seconds as int / 86400,
{
    match seconds.checked_div_euclid(86400) {
        Some(q) => q,
        None => 0,
    }
}

// ---------------------------------------------------------------------------------------------
// Calendar steps
// ---------------------------------------------------------------------------------------------

/// The instant at which the clocks of a zone show a time, in milliseconds.
///
/// The offset is looked up twice: first at the time taken as if it were UTC, then at the instant
/// that this first offset gives. A first offset of zero is taken as it is. So a time that the
/// clocks skip or show twice is resolved by the zone's offset around it: in a zone west of
/// Greenwich a skipped hour moves back and a repeated hour is the earlier one, in a zone that is at
/// Greenwich in winter a skipped hour moves forward and a repeated hour is the later one.
pub open spec fn instant_showing(zone: Seq<char>, local: int) -> int {
    local - showing_offset(zone, local / 1000) * 1000
}

/// The offset by which a time is turned into an instant.
pub open spec fn showing_offset(zone: Seq<char>, local_second: int) -> int {
    let first = zone_offset(zone, local_second);
    if first == 0 {
        0
    } else {
        zone_offset(zone, local_second - first)
    }
}

/// What the clocks of a zone show at an instant, in milliseconds.
pub open spec fn shown_at(zone: Seq<char>, millis: int) -> int {
    millis + zone_offset(zone, millis / 1000) * 1000
}

/// The instant a number of days later at the same time on the clocks of a zone; nothing where an
/// instant that has to be looked up, or the result, is out of chrono's range.
pub open spec fn days_later(zone: Seq<char>, millis: int, days: int) -> Option<int> {
    let local = shown_at(zone, millis) + days * 86400000;
    let first = zone_offset(zone, local / 1000);
    let result = instant_showing(zone, local);
    if in_range(millis / 1000) && in_range(local / 1000) && (first == 0 || in_range(
        local / 1000 - first,
    )) && in_range(result / 1000) {
        Some(result)
    } else {
        None
    }
}

/// Whether a number of days lies between two instants on the clocks of a zone, to the millisecond,
/// if the clocks show the later time at all, which is then less than a day from the time taken as if
/// it were UTC.
pub open spec fn same_time_later(zone: Seq<char>, millis: int, days: int, later: int) -> bool {
    let wanted = millis + 1000 * zone_offset(zone, millis / 1000) + days * 86400000;
    (exists|s: int|
        in_range(s) && -86400 < s - wanted / 1000 < 86400 && #[trigger] clock_at(zone, s) == wanted
            / 1000) ==> later + 1000 * zone_offset(zone, later / 1000) == wanted
}

/// A step of days ends at the same time on the clocks, wherever they show that time: also where the
/// offset went up or down on the way.
///
/// Where they show it twice, the step ends at the first of the two instants if the time, taken as if
/// it were UTC, lies before the change, and at the second otherwise. Where they skip it, the step
/// ends as much too early on the clocks as they skip in the one case, and as much too late in the
/// other.
pub proof fn days_later_is_the_same_time(
    zone: Seq<char>,
    millis: int,
    days: int,
    at: int,
    before: int,
    after: int,
)
    requires
        days_later(zone, millis, days) is Some,
        changes_once(
            zone,
            (millis + 1000 * zone_offset(zone, millis / 1000) + days * 86400000) / 1000,
            at,
            before,
            after,
        ),
    ensures
        ({
            let wanted = millis + 1000 * zone_offset(zone, millis / 1000) + days * 86400000;
            let local = wanted / 1000;
            let later = days_later(zone, millis, days)->0;
            let shown = later + 1000 * zone_offset(zone, later / 1000);
            let early = local - before < at;
            let late = local - after >= at;
            &&& early || late ==> shown == wanted
            &&& early && !late ==> later == wanted - 1000 * before
            &&& late && !early ==> later == wanted - 1000 * after
            &&& early && late && local < at ==> later == wanted - 1000 * before
            &&& early && late && local >= at ==> later == wanted - 1000 * after
            &&& !early && !late && local < at ==> shown == wanted - 1000 * (after - before)
            &&& !early && !late && local >= at ==> shown == wanted + 1000 * (after - before)
        }),
{
    let wanted = millis + 1000 * zone_offset(zone, millis / 1000) + days * 86400000;
    let local = wanted / 1000;
    let first = zone_offset(zone, local);
    let later = days_later(zone, millis, days)->0;
    let offset = showing_offset(zone, local);
    assert(shown_at(zone, millis) + days * 86400000 == wanted);
    assert(later == wanted - 1000 * offset);
    assert(later / 1000 == local - offset);
    if first != 0 {
        assert(offset == zone_offset(zone, local - first));
    }
    assert(-86400 < offset < 86400);
    assert(zone_offset(zone, local - offset) == (if local - offset < at {
        before
    } else {
        after
    }));
}

/// There is a step of days wherever its two ends are more than a day from the ends of chrono's range.
pub proof fn days_later_is_in_range(
    zone: Seq<char>,
    millis: int,
    days: int,
    at: int,
    before: int,
    after: int,
)
    requires
        in_range(millis / 1000),
        ({
            let local = (millis + 1000 * zone_offset(zone, millis / 1000) + days * 86400000) / 1000;
            in_range(local - 86400) && in_range(local + 86400) && changes_once(
                zone,
                local,
                at,
                before,
                after,
            )
        }),
    ensures
        days_later(zone, millis, days) is Some,
{
    let local = (millis + 1000 * zone_offset(zone, millis / 1000) + days * 86400000) / 1000;
    let first = zone_offset(zone, local);
    assert(-86400 < first < 86400);
    assert(-86400 < zone_offset(zone, local - first) < 86400);
}

/// In a zone whose offset does not change, a step of days is that many times 24 hours.
pub proof fn steady_zones_step_by_hours(zone: Seq<char>, offset: int, millis: int, days: int)
    requires
        forall|t: int| in_range(t) ==> #[trigger] zone_offset(zone, t) == offset,
        days_later(zone, millis, days) is Some,
    ensures
        days_later(zone, millis, days) == Some(millis + days * 86400000),
{
}

proof fn shown_times_are_kept(zone: Seq<char>, millis: int, days: int, at: int, before: int, after: int)
    requires
        days_later(zone, millis, days) is Some,
        changes_once(
            zone,
            (millis + 1000 * zone_offset(zone, millis / 1000) + days * 86400000) / 1000,
            at,
            before,
            after,
        ),
    ensures
        same_time_later(zone, millis, days, days_later(zone, millis, days)->0),
{
    days_later_is_the_same_time(zone, millis, days, at, before, after);
    let wanted = millis + 1000 * zone_offset(zone, millis / 1000) + days * 86400000;
    assert forall|s: int|
        in_range(s) && -86400 < s - wanted / 1000 < 86400 && #[trigger] clock_at(zone, s) == wanted
            / 1000 implies wanted / 1000 - before < at || wanted / 1000 - after >= at by {
        assert(clock_at(zone, s) == s + zone_offset(zone, s));
    }
}

/// Moves an instant by a few days at the same time on the clocks of a zone.
pub fn add_days(zone: &str, millis: i64, days: i64) -> (r: Option<i64>)
    requires
        known_zone(zone@),
        -1000 <= days <= 1000,
    ensures
        match r {
            Some(t) => days_later(zone@, millis as int, days as int) == Some(t as int) && t - millis
                > days * 86400000 - 172800000 && same_time_later(
                zone@,
                millis as int,
                days as int,
                t as int,
            ),
            None => days_later(zone@, millis as int, days as int) is None,
        },
{
    let second: i64 = whole_seconds(millis);
    let here: i32 = match zone_offset_at(zone, second) {
        Some(offset) => offset,
        None => {
            return None;
        },
    };
    assert(MIN_SECOND * 1000 <= millis <= MAX_SECOND * 1000 + 999);
    let local: i64 = millis + (here as i64) * 1000 + days * 86400000;
    let local_second: i64 = whole_seconds(local);
    let first: i32 = match zone_offset_at(zone, local_second) {
        Some(offset) => offset,
        None => {
            return None;
        },
    };
    let offset: i32 = if first == 0 {
        0
    } else {
        match zone_offset_at(zone, local_second - first as i64) {
            Some(offset) => offset,
            None => {
                return None;
            },
        }
    };
    let result: i64 = local - (offset as i64) * 1000;
    let result_second: i64 = whole_seconds(result);
    if result_second < MIN_SECOND || result_second > MAX_SECOND {
        return None;
    }
    proof {
        let (at, before, after) = choose|at: int, before: int, after: int|
            changes_once(zone@, local_second as int, at, before, after);
        shown_times_are_kept(zone@, millis as int, days as int, at, before, after);
    }
    Some(result)
}

// ---------------------------------------------------------------------------------------------
// Dates and their numbers
// ---------------------------------------------------------------------------------------------

/// The number of the last day before a year.
pub open spec fn days_before_year(year: int) -> int {
    365 * (year - 1) + (year - 1) / 4 - (year - 1) / 100 + (year - 1) / 400
}

/// The number of days of a year.
pub open spec fn days_in_year(year: int) -> int {
    if is_leap(year) {
        366
    } else {
        365
    }
}

proof fn fourth_years(year: int)
    ensures
        year / 4 == (year - 1) / 4 + (if year % 4 == 0 {
            1int
        } else {
            0
        }),
{
}

proof fn hundredth_years(year: int)
    ensures
        year / 100 == (year - 1) / 100 + (if year % 100 == 0 {
            1int
        } else {
            0
        }),
        year % 100 == 0 ==> year % 4 == 0,
{
}

proof fn four_hundredth_years(year: int)
    ensures
        year / 400 == (year - 1) / 400 + (if year % 400 == 0 {
            1int
        } else {
            0
        }),
        year % 400 == 0 ==> year % 100 == 0,
{
}

proof fn next_year_starts(year: int)
    ensures
        days_before_year(year + 1) == days_before_year(year) + days_in_year(year),
{
    fourth_years(year);
    hundredth_years(year);
    four_hundredth_years(year);
    assert(days_before_year(year + 1) == 365 * year + year / 4 - year / 100 + year / 400);
}

proof fn years_are_ordered(a: int, b: int)
    requires
        a < b,
    ensures
        days_before_year(a) + days_in_year(a) <= days_before_year(b),
    decreases b - a,
{
    next_year_starts(b - 1);
    if a < b - 1 {
        years_are_ordered(a, b - 1);
    }
}

proof fn months_of_a_year(year: int)
    ensures
        days_before_month(year, 1) == 0,
        days_before_month(year, 2) == 31,
        days_before_month(year, 3) == 31 + days_in_month(year, 2),
        days_before_month(year, 4) == 62 + days_in_month(year, 2),
        days_before_month(year, 5) == 92 + days_in_month(year, 2),
        days_before_month(year, 6) == 123 + days_in_month(year, 2),
        days_before_month(year, 7) == 153 + days_in_month(year, 2),
        days_before_month(year, 8) == 184 + days_in_month(year, 2),
        days_before_month(year, 9) == 215 + days_in_month(year, 2),
        days_before_month(year, 10) == 245 + days_in_month(year, 2),
        days_before_month(year, 11) == 276 + days_in_month(year, 2),
        days_before_month(year, 12) == 306 + days_in_month(year, 2),
{
    reveal_with_fuel(days_before_month, 13);
}

/// Different dates have different numbers.
pub proof fn dates_are_numbered_once(
    year1: int,
    month1: int,
    day1: int,
    year2: int,
    month2: int,
    day2: int,
)
    requires
        is_date(year1, month1, day1),
        is_date(year2, month2, day2),
        day_number(year1, month1, day1) == day_number(year2, month2, day2),
    ensures
        year1 == year2,
        month1 == month2,
        day1 == day2,
{
    months_of_a_year(year1);
    months_of_a_year(year2);
    let in_year1 = days_before_month(year1, month1) + day1;
    let in_year2 = days_before_month(year2, month2) + day2;
    assert(1 <= in_year1 <= days_in_year(year1));
    assert(1 <= in_year2 <= days_in_year(year2));
    assert(day_number(year1, month1, day1) == days_before_year(year1) + in_year1);
    assert(day_number(year2, month2, day2) == days_before_year(year2) + in_year2);
    if year1 < year2 {
        years_are_ordered(year1, year2);
    }
    if year2 < year1 {
        years_are_ordered(year2, year1);
    }
}

proof fn fours_come_again(x: int)
    ensures
        (x + 400) % 4 == x % 4,
        (x + 400) / 4 == x / 4 + 100,
{
}

proof fn hundreds_come_again(x: int)
    ensures
        (x + 400) % 100 == x % 100,
        (x + 400) / 100 == x / 100 + 4,
{
}

proof fn four_hundreds_come_again(x: int)
    ensures
        (x + 400) % 400 == x % 400,
        (x + 400) / 400 == x / 400 + 1,
{
}

proof fn leap_years_come_again(year: int)
    ensures
        is_leap(year + 400) == is_leap(year),
        days_before_year(year + 400) == days_before_year(year) + 146097,
{
    fours_come_again(year);
    hundreds_come_again(year);
    four_hundreds_come_again(year);
    fours_come_again(year - 1);
    hundreds_come_again(year - 1);
    four_hundreds_come_again(year - 1);
}

proof fn months_come_again(year: int, month: int)
    ensures
        days_before_month(year + 400, month) == days_before_month(year, month),
    decreases month,
{
    leap_years_come_again(year);
    if month > 1 {
        months_come_again(year, month - 1);
    }
}

/// Dates come again after 400 years, which are 146097 days.
pub proof fn dates_come_again(year: int, month: int, day: int)
    ensures
        is_date(year + 400, month, day) == is_date(year, month, day),
        day_number(year + 400, month, day) == day_number(year, month, day) + 146097,
{
    leap_years_come_again(year);
    months_come_again(year, month);
    assert(day_number(year, month, day) == days_before_year(year) + days_before_month(year, month)
        + day);
}

/// Every day has a date.
pub proof fn days_have_dates(number: int) -> (date: (int, int, int))
    ensures
        is_date(date.0, date.1, date.2),
        day_number(date.0, date.1, date.2) == number,
    decreases if number < 1 {
        1 - number
    } else {
        number - 1
    },
{
    if number == 1 {
        assert(day_number(1, 1, 1) == 1);
        (1, 1, 1)
    } else if number > 1 {
        let (y, m, d) = days_have_dates(number - 1);
        months_of_a_year(y);
        months_of_a_year(y + 1);
        next_year_starts(y);
        assert(number - 1 == days_before_year(y) + days_before_month(y, m) + d);
        if d < days_in_month(y, m) {
            (y, m, d + 1)
        } else if m < 12 {
            (y, m + 1, 1)
        } else {
            assert(day_number(y + 1, 1, 1) == days_before_year(y + 1) + 1);
            (y + 1, 1, 1)
        }
    } else {
        let (y, m, d) = days_have_dates(number + 1);
        months_of_a_year(y);
        months_of_a_year(y - 1);
        next_year_starts(y - 1);
        assert(number + 1 == days_before_year(y) + days_before_month(y, m) + d);
        if d > 1 {
            (y, m, d - 1)
        } else if m > 1 {
            (y, m - 1, days_in_month(y, m - 1))
        } else {
            assert(day_number(y - 1, 12, 31) == days_before_year(y - 1) + days_before_month(
                y - 1,
                12,
            ) + 31);
            (y - 1, 12, 31)
        }
    }
}

/// The date of a day, also of the days next to those that chrono can hold.
pub fn civil_date(number: i32) -> (r: (i32, u32, u32))
    requires
        MIN_DAY - 1 <= number <= MAX_DAY + 1,
    ensures
        is_date(r.0 as int, r.1 as int, r.2 as int),
        day_number(r.0 as int, r.1 as int, r.2 as int) == number,
        MIN_YEAR - 400 <= r.0 <= MAX_YEAR + 400,
        MIN_DAY <= number <= MAX_DAY ==> MIN_YEAR <= r.0 <= MAX_YEAR,
{
    let shift: i32 = if number > MAX_DAY {
        1
    } else if number < MIN_DAY {
        -1
    } else {
        0
    };
    match date_of_number(number - 146097 * shift) {
        Some((y, m, d)) => {
            proof {
                dates_come_again(y as int, m as int, d as int);
                dates_come_again(y as int - 400, m as int, d as int);
            }
            (y + 400 * shift, m, d)
        },
        None => (1, 1, 1),
    }
}

// ---------------------------------------------------------------------------------------------
// Days
// ---------------------------------------------------------------------------------------------

/// A number of milliseconds, where it fits.
pub open spec fn fitting(millis: int) -> Option<int> {
    if i64::MIN <= millis <= i64::MAX {
        Some(millis)
    } else {
        None
    }
}

/// The first instant of a day at an offset from UTC in seconds.
pub open spec fn day_start(number: int, offset: int) -> Option<int> {
    fitting(((number - EPOCH_DAY) * 86400 - offset) * 1000)
}

/// The last millisecond of a day at an offset from UTC in seconds.
pub open spec fn day_end(number: int, offset: int) -> Option<int> {
    fitting(((number - EPOCH_DAY) * 86400 - offset) * 1000 + 86399999)
}

fn as_fitting(millis: i128) -> (r: Option<i64>)
    ensures
        match r {
            Some(m) => fitting(millis as int) == Some(m as int),
            None => fitting(millis as int) is None,
        },
{
    if -9223372036854775808 <= millis && millis <= 9223372036854775807 {
        Some(millis as i64)
    } else {
        None
    }
}

/// The first instant of a day, in milliseconds.
pub fn start_of_day(number: i32, offset: i64) -> (r: Option<i64>)
    ensures
        match r {
            Some(m) => day_start(number as int, offset as int) == Some(m as int),
            None => day_start(number as int, offset as int) is None,
        },
{
    as_fitting((((number as i128) - 719163) * 86400 - (offset as i128)) * 1000)
}

/// The last millisecond of a day.
pub fn end_of_day(number: i32, offset: i64) -> (r: Option<i64>)
    ensures
        match r {
            Some(m) => day_end(number as int, offset as int) == Some(m as int),
            None => day_end(number as int, offset as int) is None,
        },
{
    as_fitting((((number as i128) - 719163) * 86400 - (offset as i128)) * 1000 + 86399999)
}

/// The value of a digit.
pub open spec fn digit_value(c: char) -> int {
    c as int - '0' as int
}

/// Whether all characters from one position to another are digits.
pub open spec fn all_digits(s: Seq<char>, from: int, to: int) -> bool {
    forall|i: int| from <= i < to ==> '0' <= #[trigger] s[i] <= '9'
}

/// The number that digits from one position to another are.
pub open spec fn number_at(s: Seq<char>, from: int, to: int) -> int
    decreases to - from,
{
    if to <= from {
        0
    } else {
        number_at(s, from, to - 1) * 10 + digit_value(s[to - 1])
    }
}

/// The date that a text is: four digits, a hyphen, two digits, a hyphen and two digits.
pub open spec fn date_in(s: Seq<char>) -> Option<(int, int, int)> {
    let year = number_at(s, 0, 4);
    let month = number_at(s, 5, 7);
    let day = number_at(s, 8, 10);
    if s.len() == 10 && all_digits(s, 0, 4) && s[4] == '-' && all_digits(s, 5, 7) && s[7] == '-'
        && all_digits(s, 8, 10) && is_date(year, month, day) {
        Some((year, month, day))
    } else {
        None
    }
}

/// The number of the date that a text is.
pub open spec fn day_in(s: Seq<char>) -> Option<int> {
    match date_in(s) {
        Some((year, month, day)) => Some(day_number(year, month, day)),
        None => None,
    }
}

fn read_digits(chars: &[char], from: usize, to: usize) -> (r: Option<u32>)
    requires
        from <= to <= chars@.len(),
        to - from <= 4,
    ensures
        match r {
            Some(n) => all_digits(chars@, from as int, to as int) && n == number_at(
                chars@,
                from as int,
                to as int,
            ) && n <= 9999,
            None => !all_digits(chars@, from as int, to as int),
        },
{
    let mut n: u32 = 0;
    let mut i: usize = from;
    while i < to
        invariant
            from <= i <= to <= chars@.len(),
            to - from <= 4,
            all_digits(chars@, from as int, i as int),
            n == number_at(chars@, from as int, i as int),
            i == from ==> n == 0,
            i == from + 1 ==> n <= 9,
            i == from + 2 ==> n <= 99,
            i == from + 3 ==> n <= 999,
            i == from + 4 ==> n <= 9999,
        decreases to - i,
    {
        let c: char = chars[i];
        if !('0' <= c && c <= '9') {
            return None;
        }
        n = n * 10 + ((c as u32) - 48);
        i = i + 1;
    }
    Some(n)
}

/// Reads a date and numbers it.
pub fn read_day(text: &str) -> (r: Option<i32>)
    ensures
        match r {
            Some(n) => day_in(text@) == Some(n as int) && MIN_DAY <= n <= MAX_DAY,
            None => day_in(text@) is None,
        },
{
    let chars: Vec<char> = crate::text::to_chars(text);
    if chars.len() != 10 || chars[4] != '-' || chars[7] != '-' {
        return None;
    }
    let year: u32 = match read_digits(chars.as_slice(), 0, 4) {
        Some(n) => n,
        None => {
            return None;
        },
    };
    let month: u32 = match read_digits(chars.as_slice(), 5, 7) {
        Some(n) => n,
        None => {
            return None;
        },
    };
    let day: u32 = match read_digits(chars.as_slice(), 8, 10) {
        Some(n) => n,
        None => {
            return None;
        },
    };
    number_of_date(year as i32, month, day)
}

/// The days are numbered without gaps: the day after a date is the next of its month, the first of
/// the next month, or the first of the next year. The months have their usual lengths, February a
/// day more in every fourth year but for the centuries that four hundred does not divide.
pub proof fn days_follow_each_other(year: int, month: int, day: int)
    requires
        is_date(year, month, day),
    ensures
        day_number(1, 1, 1) == 1,
        day_number(1970, 1, 1) == 719163,
        ({
            let last: int = if month == 4 || month == 6 || month == 9 || month == 11 {
                30
            } else if month != 2 {
                31
            } else if year % 400 == 0 || (year % 4 == 0 && year % 100 != 0) {
                29
            } else {
                28
            };
            let next = day_number(year, month, day) + 1;
            &&& day <= last
            &&& day < last ==> is_date(year, month, day + 1) && day_number(year, month, day + 1) == next
            &&& day == last && month < 12 ==> is_date(year, month + 1, 1) && day_number(
                year,
                month + 1,
                1,
            ) == next
            &&& day == last && month == 12 ==> is_date(year + 1, 1, 1) && day_number(year + 1, 1, 1)
                == next
        }),
{
    months_of_a_year(year);
    months_of_a_year(year + 1);
    months_of_a_year(1970);
    months_of_a_year(1);
    next_year_starts(year);
}

/// An instant is given if it fits in sixty-four bits, its ends included, and nothing in its place if
/// it does not.
pub proof fn instants_that_fit_are_given(millis: int)
    ensures
        -9223372036854775808 <= millis <= 9223372036854775807 ==> fitting(millis) == Some(millis),
        !(-9223372036854775808 <= millis <= 9223372036854775807) ==> fitting(millis) is None,
{
}

} // verus!
