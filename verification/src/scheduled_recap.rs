//! Recurring recaps: which days of the week, at what time of day, in which zone.
//!
//! The days are a mask in which Sunday is bit zero. A schedule is kept on the clocks of the user's
//! zone, so it does not drift when those change.

use vstd::prelude::*;

use crate::calendar::{
    end_of_gap, is_known_zone, latest_instant, whole_days, whole_seconds, zone_offset_at, EPOCH_DAY,
    MAX_SECOND, MIN_SECOND,
};
use crate::text::{byte_len, cat, cat3, decimal_text, digits_text, remove_duplicates, same, to_chars};
use crate::utils::{ensure_id, get_millis, is_valid_id, AppError, AppResult, StringArray};

verus! {

pub const SUNDAY: i64 = 1;

pub const MONDAY: i64 = 2;

pub const TUESDAY: i64 = 4;

pub const WEDNESDAY: i64 = 8;

pub const THURSDAY: i64 = 16;

pub const FRIDAY: i64 = 32;

pub const SATURDAY: i64 = 64;

/// Monday to Friday.
pub const WEEKDAYS: i64 = 62;

/// Saturday and Sunday.
pub const WEEKEND: i64 = 65;

pub const EVERY_DAY: i64 = 127;

pub const CHANNEL_MODE_SPECIFIC: &'static str = "specific";

pub const CHANNEL_MODE_ALL_UNREADS: &'static str = "all_unreads";

pub const TIME_PERIOD_LAST_24H: &'static str = "last_24h";

pub const TIME_PERIOD_LAST_WEEK: &'static str = "last_week";

pub const TIME_PERIOD_SINCE_LAST_READ: &'static str = "since_last_read";

/// In bytes.
pub const SCHEDULED_RECAP_TITLE_MAX_LENGTH: usize = 255;

/// In bytes.
pub const SCHEDULED_RECAP_CUSTOM_INSTRUCTIONS_MAX_LENGTH: usize = 500;

pub const SCHEDULED_RECAP_MIN_DAYS_OF_WEEK: i64 = 1;

pub const SCHEDULED_RECAP_MAX_DAYS_OF_WEEK: i64 = 127;

/// A recap that is made again and again.
#[derive(Debug, Clone, Default, PartialEq, Eq)]
pub struct ScheduledRecap {
    pub id: String,
    pub user_id: String,
    pub title: String,
    /// A mask of days; Sunday is 1.
    pub days_of_week: i64,
    /// Hours and minutes, two digits each.
    pub time_of_day: String,
    pub timezone: String,
    pub time_period: String,
    pub next_run_at: i64,
    pub last_run_at: i64,
    pub run_count: i64,
    pub channel_mode: String,
    /// What is recapped in the mode of specific channels.
    pub channel_ids: Option<StringArray>,
    pub custom_instructions: String,
    pub agent_id: String,
    pub is_recurring: bool,
    pub enabled: bool,
    pub create_at: i64,
    pub update_at: i64,
    pub delete_at: i64,
}

/// The value of a digit.
pub open spec fn digit_value(c: char) -> int {
    (c as int) - ('0' as int)
}

/// The number that two digits of a text spell.
pub open spec fn two_digits(s: Seq<char>, at: int) -> int {
    10 * digit_value(s[at]) + digit_value(s[at + 1])
}

/// A time of day: two digits of an hour, a colon, two digits of a minute.
pub open spec fn valid_time_of_day(s: Seq<char>) -> bool {
    &&& s.len() == 5
    &&& s[2] == ':'
    &&& crate::pattern::is_digit(s[0])
    &&& crate::pattern::is_digit(s[1])
    &&& crate::pattern::is_digit(s[3])
    &&& crate::pattern::is_digit(s[4])
    &&& two_digits(s, 0) < 24
    &&& two_digits(s, 3) < 60
}

/// The seconds from midnight to a time of day.
pub open spec fn seconds_of_day(s: Seq<char>) -> int {
    two_digits(s, 0) * 3600 + two_digits(s, 3) * 60
}

fn digit_at(c: char) -> (r: Option<i64>)
    ensures
        match r {
            Some(d) => crate::pattern::is_digit(c) && d == digit_value(c),
            None => !crate::pattern::is_digit(c),
        },
{
    if '0' <= c && c <= '9' {
        Some((c as u32 - 48) as i64)
    } else {
        None
    }
}

/// The seconds from midnight to a time of day, where the text is one.
pub fn parse_time_of_day(s: &str) -> (r: Option<i64>)
    ensures
        match r {
            Some(n) => valid_time_of_day(s@) && n == seconds_of_day(s@) && 0 <= n < 86400,
            None => !valid_time_of_day(s@),
        },
{
    let c: Vec<char> = to_chars(s);
    if c.len() != 5 || c[2] != ':' {
        return None;
    }
    match (digit_at(c[0]), digit_at(c[1]), digit_at(c[3]), digit_at(c[4])) {
        (Some(h1), Some(h2), Some(m1), Some(m2)) => {
            let hour: i64 = 10 * h1 + h2;
            let minute: i64 = 10 * m1 + m2;
            if hour < 24 && minute < 60 {
                Some(hour * 3600 + minute * 60)
            } else {
                None
            }
        },
        _ => None,
    }
}

/// Whether a text is a time of day.
pub fn is_valid_time_of_day(s: &str) -> (r: bool)
    ensures
        r == valid_time_of_day(s@),
{
    parse_time_of_day(s).is_some()
}

/// The channels without repetitions: the first occurrence of each stays.
pub fn deduplicate_channel_ids(channel_ids: &[String]) -> (r: Vec<String>)
    ensures
        crate::text::views(r@) == crate::text::firsts(crate::text::views(channel_ids@)),
{
    remove_duplicates(channel_ids)
}

// ---------------------------------------------------------------------------------------------
// The next run
// ---------------------------------------------------------------------------------------------

/// The day of the week of a day: Sunday is zero.
pub open spec fn weekday(day: int) -> int {
    day % 7
}

/// The bit of a day of the week.
pub open spec fn day_bit(weekday: int) -> int {
    if weekday == 0 {
        1
    } else if weekday == 1 {
        2
    } else if weekday == 2 {
        4
    } else if weekday == 3 {
        8
    } else if weekday == 4 {
        16
    } else if weekday == 5 {
        32
    } else {
        64
    }
}

/// Whether a mask has the day of the week of a day.
pub open spec fn has_day(mask: int, day: int) -> bool {
    (mask / day_bit(weekday(day))) % 2 == 1
}

fn mask_has_day(mask: i64, day: i64) -> (r: bool)
    requires
        0 <= mask,
    ensures
        r == has_day(mask as int, day as int),
{
    let bit: i64 = match day.checked_rem_euclid(7) {
        Some(0) => 1,
        Some(1) => 2,
        Some(2) => 4,
        Some(3) => 8,
        Some(4) => 16,
        Some(5) => 32,
        _ => 64,
    };
    (mask / bit) % 2 == 1
}

/// What the clocks show at a time of a day, in seconds as if it were UTC.
pub open spec fn clock_second(day: int, of_day: int) -> int {
    (day - EPOCH_DAY) * 86400 + of_day
}

/// Whether an instant, in seconds, is the one of a time of a day: the last at which the clocks of the
/// zone show that time, or the first after the gap where they skip it. A day that chrono cannot hold
/// has none.
pub open spec fn is_run(zone: Seq<char>, day: int, of_day: int, second: int) -> bool {
    let local = clock_second(day, of_day);
    &&& crate::calendar::in_range(local)
    &&& crate::calendar::is_latest_showing(zone, local, second) || (crate::calendar::never_shown(
        zone,
        local,
    ) && crate::calendar::is_gap_end(zone, local, second))
}

/// The instant of a time of a day on the clocks of a zone, in seconds.
pub open spec fn run_instant(zone: Seq<char>, day: int, of_day: int) -> Option<int> {
    if exists|t: int| is_run(zone, day, of_day, t) {
        Some(choose|t: int| is_run(zone, day, of_day, t))
    } else {
        None
    }
}

/// Whether an instant, in milliseconds, is one of a run after `millis`: on one of seven days that
/// is in the mask, on a whole second, and later than `millis` or later on the clocks of the zone.
pub open spec fn is_run_after(
    zone: Seq<char>,
    mask: int,
    of_day: int,
    millis: int,
    t: int,
) -> bool {
    t % 1000 == 0 && exists|day: int|
        #![trigger is_run(zone, day, of_day, t / 1000)]
        first_day(zone, of_day, millis) <= day < first_day(zone, of_day, millis) + 7 && has_day(
            mask,
            day,
        ) && is_run(zone, day, of_day, t / 1000) && (t > millis || crate::calendar::clock_at(
            zone,
            t / 1000,
        ) > crate::calendar::clock_at(zone, millis / 1000))
}

/// A run is at exactly the time of day, on a day that is in the mask, unless the offset of the zone
/// changes at that very instant.
pub proof fn runs_are_on_time(zone: Seq<char>, mask: int, of_day: int, millis: int, t: int)
    requires
        0 <= of_day < 86400,
        is_run_after(zone, mask, of_day, millis, t),
        crate::calendar::zone_offset(zone, t / 1000 - 1) == crate::calendar::zone_offset(
            zone,
            t / 1000,
        ),
    ensures
        crate::calendar::clock_at(zone, t / 1000) % 86400 == of_day,
        has_day(mask, EPOCH_DAY + crate::calendar::clock_at(zone, t / 1000) / 86400),
{
    let day = choose|day: int|
        #![trigger is_run(zone, day, of_day, t / 1000)]
        first_day(zone, of_day, millis) <= day < first_day(zone, of_day, millis) + 7 && has_day(
            mask,
            day,
        ) && is_run(zone, day, of_day, t / 1000);
    assert(crate::calendar::clock_at(zone, t / 1000) == clock_second(day, of_day));
    let days = day - EPOCH_DAY;
    assert((days * 86400 + of_day) / 86400 == days);
    assert((days * 86400 + of_day) % 86400 == of_day);
}

/// In a zone whose offset does not change, a run is later than the instant that it is counted from,
/// and at exactly the time of day, on a day that is in the mask.
pub proof fn steady_zones_run_on_time(
    zone: Seq<char>,
    offset: int,
    mask: int,
    of_day: int,
    millis: int,
    t: int,
)
    requires
        forall|second: int|
            crate::calendar::in_range(second) ==> #[trigger] crate::calendar::zone_offset(zone, second)
                == offset,
        crate::calendar::in_range(millis / 1000),
        0 <= of_day < 86400,
        is_run_after(zone, mask, of_day, millis, t),
    ensures
        t > millis,
        t % 1000 == 0,
        (t / 1000 + offset) % 86400 == of_day,
        has_day(mask, EPOCH_DAY + (t / 1000 + offset) / 86400),
{
    let day = choose|day: int|
        #![trigger is_run(zone, day, of_day, t / 1000)]
        first_day(zone, of_day, millis) <= day < first_day(zone, of_day, millis) + 7 && has_day(
            mask,
            day,
        ) && is_run(zone, day, of_day, t / 1000);
    assert(crate::calendar::clock_at(zone, t / 1000) == clock_second(day, of_day));
    let days = day - EPOCH_DAY;
    assert((days * 86400 + of_day) / 86400 == days);
    assert((days * 86400 + of_day) % 86400 == of_day);
}

/// In a zone whose offset does not change, every day has its run: at the time of day less the
/// offset.
pub proof fn steady_zones_run_every_day(zone: Seq<char>, offset: int, day: int, of_day: int)
    requires
        forall|second: int|
            crate::calendar::in_range(second) ==> #[trigger] crate::calendar::zone_offset(zone, second)
                == offset,
        crate::calendar::in_range(clock_second(day, of_day)),
        crate::calendar::in_range(clock_second(day, of_day) - offset),
    ensures
        run_instant(zone, day, of_day) == Some(clock_second(day, of_day) - offset),
{
    runs_are_one(zone, day, of_day, clock_second(day, of_day) - offset);
}

/// The day on the clocks of a zone at an instant.
pub open spec fn day_at(zone: Seq<char>, millis: int) -> int {
    EPOCH_DAY + (millis / 1000 + crate::calendar::zone_offset(zone, millis / 1000)) / 86400
}

/// The first day on which to run: today, or tomorrow where the time of today is not after now.
pub open spec fn first_day(zone: Seq<char>, of_day: int, millis: int) -> int {
    let today = day_at(zone, millis);
    match run_instant(zone, today, of_day) {
        Some(t) if t * 1000 > millis => today,
        _ => today + 1,
    }
}

/// The instants of a number of days from a day on.
pub open spec fn run_instants(zone: Seq<char>, day: int, of_day: int, n: nat) -> Seq<Option<int>> {
    Seq::new(n, |i: int| run_instant(zone, day + i, of_day))
}

/// The first instant of a list whose day is in a mask; the list begins with the instant of `day`.
pub open spec fn first_in_mask(mask: int, day: int, instants: Seq<Option<int>>) -> Option<int>
    decreases instants.len(),
{
    if instants.len() == 0 {
        None
    } else if has_day(mask, day) && instants[0] is Some {
        instants[0]
    } else {
        first_in_mask(mask, day + 1, instants.skip(1))
    }
}

/// The integers of a list of options.
pub open spec fn as_ints(v: Seq<Option<i64>>) -> Seq<Option<int>> {
    v.map_values(
        |t: Option<i64>|
            match t {
                Some(x) => Some(x as int),
                None => None::<int>,
            },
    )
}

/// Picks the first instant whose day is in a mask. The list begins with the instant of `day`; a day
/// without an instant is passed over.
pub fn pick_run(mask: i64, day: i64, instants: &[Option<i64>]) -> (r: Option<i64>)
    requires
        0 <= mask,
        instants@.len() <= i64::MAX,
        day + instants@.len() <= i64::MAX,
    ensures
        match r {
            Some(t) => first_in_mask(mask as int, day as int, as_ints(instants@)) == Some(t as int),
            None => first_in_mask(mask as int, day as int, as_ints(instants@)) is None,
        },
{
    let ghost all = as_ints(instants@);
    let mut i: usize = 0;
    assert(all.skip(0) == all);
    while i < instants.len()
        invariant
            0 <= mask,
            instants@.len() <= i64::MAX,
            day + instants@.len() <= i64::MAX,
            all == as_ints(instants@),
            i <= instants@.len(),
            first_in_mask(mask as int, day as int, all) == first_in_mask(
                mask as int,
                day + i,
                all.skip(i as int),
            ),
        decreases instants@.len() - i,
    {
        assert(all.skip(i as int).skip(1) == all.skip(i + 1));
        assert(all.skip(i as int)[0] == all[i as int]);
        if mask_has_day(mask, day + i as i64) {
            if let Some(t) = instants[i] {
                return Some(t);
            }
        }
        i = i + 1;
    }
    None
}

/// The next run: the first of seven days from the first day on that is in the mask, in
/// milliseconds.
pub open spec fn next_run(zone: Seq<char>, mask: int, of_day: int, millis: int) -> Option<int> {
    let start = first_day(zone, of_day, millis);
    match first_in_mask(mask, start, run_instants(zone, start, of_day, 7)) {
        Some(t) => Some(t * 1000),
        None => None,
    }
}

/// Whether chrono can hold what the clocks show at an instant, whatever the zone: an offset is less
/// than a day.
pub open spec fn clocks_in_range(millis: int) -> bool {
    crate::calendar::MIN_SECOND + 86400 <= millis / 1000 <= crate::calendar::MAX_SECOND - 86400
}

/// The last instant at which the clocks show a time is the only one of the run.
proof fn runs_are_one(zone: Seq<char>, day: int, of_day: int, second: int)
    requires
        crate::calendar::in_range(clock_second(day, of_day)),
        crate::calendar::is_latest_showing(zone, clock_second(day, of_day), second),
    ensures
        is_run(zone, day, of_day, second),
        run_instant(zone, day, of_day) == Some(second),
{
    assert(is_run(zone, day, of_day, second));
    let t = run_instant(zone, day, of_day)->0;
    assert(is_run(zone, day, of_day, t));
    assert(crate::calendar::clock_at(zone, second) == clock_second(day, of_day));
    assert(crate::calendar::clock_at(zone, t) == clock_second(day, of_day));
}

fn instant_of_run(zone: &str, day: i64, of_day: i64) -> (r: Option<i64>)
    requires
        crate::calendar::known_zone(zone@),
        0 <= of_day < 86400,
        -100_000_000 <= day <= 100_000_000,
    ensures
        match r {
            Some(t) => run_instant(zone@, day as int, of_day as int) == Some(t as int)
                && crate::calendar::in_range(t as int) && is_run(
                zone@,
                day as int,
                of_day as int,
                t as int,
            ),
            None => run_instant(zone@, day as int, of_day as int) is None,
        },
{
    let local: i64 = (day - EPOCH_DAY) * 86400 + of_day;
    if local < MIN_SECOND || local > MAX_SECOND {
        return None;
    }
    match latest_instant(zone, local) {
        Some(t) => {
            proof {
                runs_are_one(zone@, day as int, of_day as int, t as int);
            }
            Some(t)
        },
        None => {
            let r: Option<i64> = end_of_gap(zone, local);
            proof {
                if r is Some {
                    assert(is_run(zone@, day as int, of_day as int, r->0 as int));
                }
            }
            r
        },
    }
}

/// The error of a computation of the next run.
pub open spec fn compute_fault(field: Seq<char>, details: Seq<char>) -> crate::utils::ErrorModel {
    crate::utils::plain_error(
        "ScheduledRecap.ComputeNextRunAt"@,
        "model.scheduled_recap.compute_next_run."@ + field + ".app_error"@,
        details,
        400,
    )
}

fn compute_error(field: &str, details: &str) -> (e: Box<AppError>)
    ensures
        e@ == compute_fault(field@, details@),
{
    let id: String = cat3("model.scheduled_recap.compute_next_run.", field, ".app_error");
    AppError::boxed("ScheduledRecap.ComputeNextRunAt", id.as_str(), None, details, 400)
}

/// The error of a field of a recap.
pub open spec fn recap_fault(field: Seq<char>, details: Seq<char>) -> crate::utils::ErrorModel {
    crate::utils::plain_error(
        "ScheduledRecap.IsValid"@,
        "model.scheduled_recap.is_valid."@ + field + ".app_error"@,
        details,
        400,
    )
}

fn recap_error(field: &str, details: &str) -> (r: AppResult)
    ensures
        crate::utils::fault_of(r) == Some(recap_fault(field@, details@)),
{
    let id: String = cat3("model.scheduled_recap.is_valid.", field, ".app_error");
    Err(AppError::boxed("ScheduledRecap.IsValid", id.as_str(), None, details, 400))
}

/// The outcome of a computation.
pub open spec fn outcome(r: Result<i64, Box<AppError>>) -> Result<int, crate::utils::ErrorModel> {
    match r {
        Ok(t) => Ok(t as int),
        Err(e) => Err(e@),
    }
}

/// The strings of an optional list.
pub open spec fn opt_views(v: Option<Vec<String>>) -> Seq<Seq<char>> {
    match v {
        Some(x) => crate::text::views(x@),
        None => Seq::empty(),
    }
}

/// The first string of a list that is no id.
pub open spec fn first_bad_id(ids: Seq<Seq<char>>) -> Option<Seq<char>>
    decreases ids.len(),
{
    if ids.len() == 0 {
        None
    } else if !crate::utils::valid_id(ids[0]) {
        Some(ids[0])
    } else {
        first_bad_id(ids.skip(1))
    }
}

fn find_bad_id(ids: &[String]) -> (r: Option<usize>)
    ensures
        match r {
            Some(i) => i < ids@.len() && first_bad_id(crate::text::views(ids@)) == Some(ids@[i as int]@),
            None => first_bad_id(crate::text::views(ids@)) is None,
        },
{
    let ghost all = crate::text::views(ids@);
    let mut i: usize = 0;
    assert(all.skip(0) == all);
    while i < ids.len()
        invariant
            all == crate::text::views(ids@),
            i <= ids@.len(),
            first_bad_id(all) == first_bad_id(all.skip(i as int)),
        decreases ids@.len() - i,
    {
        assert(all.skip(i as int).skip(1) == all.skip(i + 1));
        assert(all.skip(i as int)[0] == ids@[i as int]@);
        if !is_valid_id(ids[i].as_str()) {
            return Some(i);
        }
        i = i + 1;
    }
    None
}

impl ScheduledRecap {
    /// The next run after a time of the clock, given and returned in milliseconds.
    pub open spec fn run_outcome(&self, from: int) -> Result<int, crate::utils::ErrorModel> {
        if !crate::calendar::known_zone(self.timezone@) {
            Err(compute_fault("timezone"@, "timezone="@ + self.timezone@))
        } else if !valid_time_of_day(self.time_of_day@) {
            Err(compute_fault("time_format"@, "time_of_day="@ + self.time_of_day@))
        } else if !(SCHEDULED_RECAP_MIN_DAYS_OF_WEEK <= self.days_of_week
            <= SCHEDULED_RECAP_MAX_DAYS_OF_WEEK) {
            Err(
                compute_fault(
                    "days_of_week"@,
                    "days_of_week="@ + crate::text::decimal(self.days_of_week as int),
                ),
            )
        } else {
            match next_run(
                self.timezone@,
                self.days_of_week as int,
                seconds_of_day(self.time_of_day@),
                from,
            ) {
                Some(t) => Ok(t),
                None => Err(compute_fault("no_valid_day"@, ""@)),
            }
        }
    }

    /// The next run after a time of the clock, given and returned in milliseconds. It starts from
    /// today on the clocks of the zone, or from tomorrow where the time of today is not after now,
    /// and takes the first of seven days that is in the mask. Near the last day that chrono can hold
    /// there may be none.
    pub fn compute_next_run_at(&self, from_millis: i64) -> (r: Result<i64, Box<AppError>>)
        requires
            clocks_in_range(from_millis as int),
        ensures
            outcome(r) == self.run_outcome(from_millis as int),
            r matches Ok(t) ==> is_run_after(
                self.timezone@,
                self.days_of_week as int,
                seconds_of_day(self.time_of_day@),
                from_millis as int,
                t as int,
            ),
    {
        if !is_known_zone(self.timezone.as_str()) {
            let details: String = cat("timezone=", self.timezone.as_str());
            return Err(compute_error("timezone", details.as_str()));
        }
        let of_day: i64 = match parse_time_of_day(self.time_of_day.as_str()) {
            Some(n) => n,
            None => {
                let details: String = cat("time_of_day=", self.time_of_day.as_str());
                return Err(compute_error("time_format", details.as_str()));
            },
        };
        if self.days_of_week < SCHEDULED_RECAP_MIN_DAYS_OF_WEEK || self.days_of_week
            > SCHEDULED_RECAP_MAX_DAYS_OF_WEEK {
            let days: String = decimal_text(self.days_of_week);
            let details: String = cat("days_of_week=", days.as_str());
            return Err(compute_error("days_of_week", details.as_str()));
        }
        let zone: &str = self.timezone.as_str();
        let second: i64 = whole_seconds(from_millis);
        let offset: i32 = match zone_offset_at(zone, second) {
            Some(offset) => offset,
            None => {
                assert(false);
                0
            },
        };
        let today: i64 = EPOCH_DAY + whole_days(second + offset as i64);
        let start: i64 = match instant_of_run(zone, today, of_day) {
            Some(t) => if t * 1000 > from_millis {
                today
            } else {
                today + 1
            },
            None => today + 1,
        };
        assert(start == first_day(zone@, of_day as int, from_millis as int));
        let mut instants: Vec<Option<i64>> = Vec::new();
        let mut i: i64 = 0;
        let ghost wanted = run_instants(zone@, start as int, of_day as int, 7);
        while i < 7
            invariant
                0 <= i <= 7,
                crate::calendar::known_zone(zone@),
                0 <= of_day < 86400,
                wanted == run_instants(zone@, start as int, of_day as int, 7),
                -100_000_000 <= start <= 100_000_000 - 7,
                instants@.len() == i,
                forall|j: int|
                    0 <= j < i ==> as_ints(instants@)[j] == #[trigger] wanted[j] && (
                    instants@[j] is Some ==> crate::calendar::in_range(instants@[j]->0 as int)
                        && is_run(zone@, start + j, of_day as int, instants@[j]->0 as int)),
            decreases 7 - i,
        {
            let t: Option<i64> = instant_of_run(zone, start + i, of_day);
            instants.push(t);
            assert(as_ints(instants@)[i as int] == wanted[i as int]);
            i = i + 1;
        }
        assert(as_ints(instants@) == wanted);
        proof {
            lemma_picked(self.days_of_week as int, start as int, as_ints(instants@));
        }
        match pick_run(self.days_of_week, start, instants.as_slice()) {
            Some(t) => {
                proof {
                    let j = choose|j: int|
                        0 <= j < as_ints(instants@).len() && #[trigger] as_ints(instants@)[j] == Some(
                            t as int,
                        ) && has_day(self.days_of_week as int, start + j);
                    assert(wanted[j] == Some(t as int));
                    assert(crate::calendar::in_range(t as int));
                    assert(is_run(zone@, start + j, of_day as int, (t * 1000) / 1000));
                }
                Ok(t * 1000)
            },
            None => Err(compute_error("no_valid_day", "")),
        }
    }

    /// The first thing that is wrong with the recap.
    pub open spec fn fault(&self) -> Option<crate::utils::ErrorModel> {
        if !crate::utils::valid_id(self.id@) {
            Some(recap_fault("id"@, "id="@ + self.id@))
        } else if !crate::utils::valid_id(self.user_id@) {
            Some(recap_fault("user_id"@, "user_id="@ + self.user_id@))
        } else if self.title@.len() == 0 {
            Some(recap_fault("title_empty"@, ""@))
        } else if crate::text::utf8_len(self.title@) > SCHEDULED_RECAP_TITLE_MAX_LENGTH {
            Some(
                recap_fault(
                    "title_length"@,
                    "title_length="@ + crate::text::digits(crate::text::utf8_len(self.title@)),
                ),
            )
        } else if crate::text::utf8_len(self.custom_instructions@)
            > SCHEDULED_RECAP_CUSTOM_INSTRUCTIONS_MAX_LENGTH {
            Some(
                recap_fault(
                    "custom_instructions_length"@,
                    "custom_instructions_length="@ + crate::text::digits(
                        crate::text::utf8_len(self.custom_instructions@),
                    ),
                ),
            )
        } else if !(SCHEDULED_RECAP_MIN_DAYS_OF_WEEK <= self.days_of_week
            <= SCHEDULED_RECAP_MAX_DAYS_OF_WEEK) {
            Some(
                recap_fault(
                    "days_of_week"@,
                    "days_of_week="@ + crate::text::decimal(self.days_of_week as int),
                ),
            )
        } else if !valid_time_of_day(self.time_of_day@) {
            Some(recap_fault("time_of_day"@, "time_of_day="@ + self.time_of_day@))
        } else if !crate::calendar::known_zone(self.timezone@) {
            Some(recap_fault("timezone"@, "timezone="@ + self.timezone@))
        } else {
            self.scope_fault()
        }
    }

    /// The first thing that is wrong with what the recap covers and who makes it.
    pub open spec fn scope_fault(&self) -> Option<crate::utils::ErrorModel> {
        if self.time_period@ != TIME_PERIOD_LAST_24H@ && self.time_period@ != TIME_PERIOD_LAST_WEEK@
            && self.time_period@ != TIME_PERIOD_SINCE_LAST_READ@ {
            Some(recap_fault("time_period"@, "time_period="@ + self.time_period@))
        } else if self.channel_mode@ != CHANNEL_MODE_SPECIFIC@ && self.channel_mode@
            != CHANNEL_MODE_ALL_UNREADS@ {
            Some(recap_fault("channel_mode"@, "channel_mode="@ + self.channel_mode@))
        } else if self.channel_mode@ == CHANNEL_MODE_SPECIFIC@ && opt_views(self.channel_ids).len() == 0 {
            Some(recap_fault("channel_ids_empty"@, ""@))
        } else if self.channel_mode@ == CHANNEL_MODE_SPECIFIC@ && first_bad_id(
            opt_views(self.channel_ids),
        ) is Some {
            Some(
                recap_fault(
                    "channel_id"@,
                    "channel_id="@ + first_bad_id(opt_views(self.channel_ids))->0,
                ),
            )
        } else if self.agent_id@.len() == 0 {
            Some(recap_fault("agent_id"@, ""@))
        } else {
            None
        }
    }

    fn channel_ids_slice(&self) -> (r: &[String])
        ensures
            crate::text::views(r@) == opt_views(self.channel_ids),
    {
        match &self.channel_ids {
            Some(x) => x.as_slice(),
            None => {
                let r: &[String] = &[];
                assert(crate::text::views(r@) == Seq::<Seq<char>>::empty());
                r
            },
        }
    }

    fn check_scope(&self) -> (r: AppResult)
        ensures
            crate::utils::fault_of(r) == self.scope_fault(),
    {
        if !same(self.time_period.as_str(), TIME_PERIOD_LAST_24H) && !same(
            self.time_period.as_str(),
            TIME_PERIOD_LAST_WEEK,
        ) && !same(self.time_period.as_str(), TIME_PERIOD_SINCE_LAST_READ) {
            let details: String = cat("time_period=", self.time_period.as_str());
            return recap_error("time_period", details.as_str());
        }
        let specific: bool = same(self.channel_mode.as_str(), CHANNEL_MODE_SPECIFIC);
        if !specific && !same(self.channel_mode.as_str(), CHANNEL_MODE_ALL_UNREADS) {
            let details: String = cat("channel_mode=", self.channel_mode.as_str());
            return recap_error("channel_mode", details.as_str());
        }
        if specific {
            let ids: &[String] = self.channel_ids_slice();
            assert(opt_views(self.channel_ids).len() == ids@.len());
            if ids.len() == 0 {
                return recap_error("channel_ids_empty", "");
            }
            if let Some(i) = find_bad_id(ids) {
                let details: String = cat("channel_id=", ids[i].as_str());
                return recap_error("channel_id", details.as_str());
            }
        }
        if self.agent_id.as_str().is_empty() {
            return recap_error("agent_id", "");
        }
        Ok(())
    }

    /// Checks the recap. The lengths are counted in bytes and reported. The channels are looked at
    /// only in the mode of specific channels.
    pub fn is_valid(&self) -> (r: AppResult)
        ensures
            crate::utils::fault_of(r) == self.fault(),
    {
        if !is_valid_id(self.id.as_str()) {
            let details: String = cat("id=", self.id.as_str());
            return recap_error("id", details.as_str());
        }
        if !is_valid_id(self.user_id.as_str()) {
            let details: String = cat("user_id=", self.user_id.as_str());
            return recap_error("user_id", details.as_str());
        }
        if self.title.as_str().is_empty() {
            return recap_error("title_empty", "");
        }
        let title_len: usize = byte_len(self.title.as_str());
        if title_len > SCHEDULED_RECAP_TITLE_MAX_LENGTH {
            let length: String = digits_text(title_len as u64);
            let details: String = cat("title_length=", length.as_str());
            return recap_error("title_length", details.as_str());
        }
        let custom_len: usize = byte_len(self.custom_instructions.as_str());
        if custom_len > SCHEDULED_RECAP_CUSTOM_INSTRUCTIONS_MAX_LENGTH {
            let length: String = digits_text(custom_len as u64);
            let details: String = cat("custom_instructions_length=", length.as_str());
            return recap_error("custom_instructions_length", details.as_str());
        }
        if self.days_of_week < SCHEDULED_RECAP_MIN_DAYS_OF_WEEK || self.days_of_week
            > SCHEDULED_RECAP_MAX_DAYS_OF_WEEK {
            let days: String = decimal_text(self.days_of_week);
            let details: String = cat("days_of_week=", days.as_str());
            return recap_error("days_of_week", details.as_str());
        }
        if !is_valid_time_of_day(self.time_of_day.as_str()) {
            let details: String = cat("time_of_day=", self.time_of_day.as_str());
            return recap_error("time_of_day", details.as_str());
        }
        if !is_known_zone(self.timezone.as_str()) {
            let details: String = cat("timezone=", self.timezone.as_str());
            return recap_error("timezone", details.as_str());
        }
        self.check_scope()
    }

    /// Whether this is a recap that was made ready for storing at an instant.
    pub open spec fn is_saved(&self, before: ScheduledRecap, now: int) -> bool {
        &&& *self == (ScheduledRecap {
            id: self.id,
            channel_ids: self.channel_ids,
            create_at: self.create_at,
            update_at: if before.update_at == 0 {
                self.create_at
            } else {
                before.update_at
            },
            ..before
        })
        &&& crate::utils::kept_or_new_id(self.id@, before.id@)
        &&& self.channel_ids is Some
        &&& opt_views(self.channel_ids) == crate::text::firsts(
            opt_views(before.channel_ids)
        )
        &&& self.create_at == (if before.create_at != 0 {
            before.create_at as int
        } else {
            now
        })
    }

    /// Prepares the recap for storing at an instant.
    pub fn pre_save_at(&mut self, now: i64)
        ensures
            final(self).is_saved(*old(self), now as int),
    {
        let ids: Vec<String> = deduplicate_channel_ids(self.channel_ids_slice());
        self.channel_ids = Some(ids);
        ensure_id(&mut self.id);
        if self.create_at == 0 {
            self.create_at = now;
        }
        if self.update_at == 0 {
            self.update_at = self.create_at;
        }
    }

    /// Prepares the recap for storing: each channel once, and an id and times where they are unset.
    pub fn pre_save(&mut self)
        ensures
            exists|now: int|
                crate::utils::is_clock(now) && #[trigger] final(self).is_saved(*old(self), now),
    {
        let now: i64 = get_millis();
        self.pre_save_at(now);
    }

    /// Whether this is a changed recap that was made ready for storing at an instant.
    pub open spec fn is_updated(&self, before: ScheduledRecap, now: int) -> bool {
        &&& *self == (ScheduledRecap {
            channel_ids: self.channel_ids,
            update_at: self.update_at,
            ..before
        })
        &&& self.update_at == now
        &&& self.channel_ids is Some
        &&& opt_views(self.channel_ids) == crate::text::firsts(
            opt_views(before.channel_ids)
        )
    }

    /// Prepares a changed recap for storing at an instant.
    pub fn pre_update_at(&mut self, now: i64)
        ensures
            final(self).is_updated(*old(self), now as int),
    {
        let ids: Vec<String> = deduplicate_channel_ids(self.channel_ids_slice());
        self.channel_ids = Some(ids);
        self.update_at = now;
    }

    /// Prepares a changed recap for storing: each channel once, and the time of the change.
    pub fn pre_update(&mut self)
        ensures
            exists|now: int|
                crate::utils::is_clock(now) && #[trigger] final(self).is_updated(*old(self), now),
    {
        let now: i64 = get_millis();
        self.pre_update_at(now);
    }
}

// ---------------------------------------------------------------------------------------------
// What schedules mean
// ---------------------------------------------------------------------------------------------

/// Each constant has the days of its name, and no others, whatever the week: Sunday is the first day
/// of the week.
pub proof fn masks_have_the_days_of_their_names(day: int)
    ensures
        has_day(SUNDAY as int, day) == (day % 7 == 0),
        has_day(MONDAY as int, day) == (day % 7 == 1),
        has_day(TUESDAY as int, day) == (day % 7 == 2),
        has_day(WEDNESDAY as int, day) == (day % 7 == 3),
        has_day(THURSDAY as int, day) == (day % 7 == 4),
        has_day(FRIDAY as int, day) == (day % 7 == 5),
        has_day(SATURDAY as int, day) == (day % 7 == 6),
        has_day(WEEKDAYS as int, day) == (1 <= day % 7 <= 5),
        has_day(WEEKEND as int, day) == (day % 7 == 0 || day % 7 == 6),
        has_day(EVERY_DAY as int, day),
{
}

/// A mask has a day if the bit of the day of the week is set, Sunday being bit zero.
pub proof fn masks_are_bits(mask: u64, day: int)
    requires
        mask <= 127,
    ensures
        has_day(mask as int, day) == ((mask >> ((day % 7) as u64)) & 1 == 1),
{
    assert((mask / 1) % 2 == (mask >> 0u64) & 1) by (bit_vector);
    assert((mask / 2) % 2 == (mask >> 1u64) & 1) by (bit_vector);
    assert((mask / 4) % 2 == (mask >> 2u64) & 1) by (bit_vector);
    assert((mask / 8) % 2 == (mask >> 3u64) & 1) by (bit_vector);
    assert((mask / 16) % 2 == (mask >> 4u64) & 1) by (bit_vector);
    assert((mask / 32) % 2 == (mask >> 5u64) & 1) by (bit_vector);
    assert((mask / 64) % 2 == (mask >> 6u64) & 1) by (bit_vector);
}

/// The epoch was a Thursday, and every seventh day before and after it is one.
pub proof fn the_epoch_was_a_thursday(weeks: int)
    ensures
        crate::calendar::day_number(1970, 1, 1) == EPOCH_DAY,
        has_day(THURSDAY as int, crate::calendar::day_number(1970, 1, 1) + 7 * weeks),
        !has_day(EVERY_DAY - THURSDAY, crate::calendar::day_number(1970, 1, 1) + 7 * weeks),
{
    assert(crate::calendar::days_before_month(1970, 1) == 0);
    assert((719163 + 7 * weeks) % 7 == 4);
}

/// Among seven days there is one that is in a mask.
proof fn a_week_has_a_day(mask: int, day: int) -> (j: int)
    requires
        1 <= mask <= 127,
    ensures
        0 <= j < 7,
        has_day(mask, day + j),
{
    let bit: int = if mask % 2 == 1 {
        0
    } else if (mask / 2) % 2 == 1 {
        1
    } else if (mask / 4) % 2 == 1 {
        2
    } else if (mask / 8) % 2 == 1 {
        3
    } else if (mask / 16) % 2 == 1 {
        4
    } else if (mask / 32) % 2 == 1 {
        5
    } else {
        6
    };
    assert(bit == 6 ==> (mask / 64) % 2 == 1);
    let j = (bit - day) % 7;
    assert((day + j) % 7 == bit);
    j
}

/// What is picked is the first instant whose day is in the mask; nothing is picked only where there
/// is none.
pub proof fn the_first_day_is_picked(mask: int, day: int, instants: Seq<Option<int>>) -> (j: int)
    ensures
        0 <= j <= instants.len(),
        forall|i: int| 0 <= i < j ==> !(has_day(mask, day + i) && #[trigger] instants[i] is Some),
        j < instants.len() ==> has_day(mask, day + j) && instants[j] is Some && first_in_mask(
            mask,
            day,
            instants,
        ) == instants[j],
        j == instants.len() ==> first_in_mask(mask, day, instants) is None,
    decreases instants.len(),
{
    if instants.len() == 0 {
        0
    } else if has_day(mask, day) && instants[0] is Some {
        0
    } else {
        let rest = instants.skip(1);
        let k = the_first_day_is_picked(mask, day + 1, rest);
        assert forall|i: int| 0 <= i < k + 1 implies !(has_day(mask, day + i)
            && #[trigger] instants[i] is Some) by {
            if i > 0 {
                assert(rest[i - 1] == instants[i]);
            }
        }
        k + 1
    }
}

/// A run follows the clocks of its zone: where they show the time of day on that day, the run is at
/// the last instant at which they do; where they skip it, it is at the instant at which they do.
pub proof fn runs_follow_the_clocks(zone: Seq<char>, day: int, of_day: int, t: int, s: int)
    requires
        is_run(zone, day, of_day, t),
        crate::calendar::in_range(s),
    ensures
        ({
            let local = (day - 719163) * 86400 + of_day;
            let at_t = t + crate::calendar::zone_offset(zone, t);
            let at_s = s + crate::calendar::zone_offset(zone, s);
            &&& crate::calendar::in_range(t)
            &&& at_s == local ==> at_t == local && s <= t
            &&& at_t >= local
            &&& at_t > local ==> at_s != local && t - 1 + crate::calendar::zone_offset(zone, t - 1)
                < local
        }),
{
    assert(crate::calendar::clock_at(zone, s) == s + crate::calendar::zone_offset(zone, s));
    assert(crate::calendar::clock_at(zone, t) == t + crate::calendar::zone_offset(zone, t));
}

/// The search for a run starts today, on the clocks of the zone, if the run of today is still to
/// come, and tomorrow otherwise.
pub proof fn the_search_starts_today(zone: Seq<char>, of_day: int, millis: int)
    ensures
        ({
            let shown = millis / 1000 + crate::calendar::zone_offset(zone, millis / 1000);
            let today = 719163 + shown / 86400;
            let run = run_instant(zone, today, of_day);
            first_day(zone, of_day, millis) == if run is Some && run->0 * 1000 > millis {
                today
            } else {
                today + 1
            }
        }),
{
}

/// In a zone whose offset does not change, there always is a next run, and it is the very first
/// instant after now at which the clocks show the time of day on a day that is in the mask.
pub proof fn steady_zones_run_first(
    zone: Seq<char>,
    offset: int,
    mask: int,
    of_day: int,
    millis: int,
    u: int,
)
    requires
        forall|second: int|
            crate::calendar::in_range(second) ==> #[trigger] crate::calendar::zone_offset(zone, second)
                == offset,
        -86400 < offset < 86400,
        0 <= of_day < 86400,
        1 <= mask <= 127,
        crate::calendar::MIN_SECOND + 3 * 86400 <= millis / 1000 <= crate::calendar::MAX_SECOND - 10
            * 86400,
    ensures
        next_run(zone, mask, of_day, millis) is Some,
        ({
            let t = next_run(zone, mask, of_day, millis)->0;
            &&& t > millis
            &&& t % 1000 == 0
            &&& (t / 1000 + offset) % 86400 == of_day
            &&& has_day(mask, 719163 + (t / 1000 + offset) / 86400)
            &&& millis < u < t && u % 1000 == 0 && (u / 1000 + offset) % 86400 == of_day ==> !has_day(
                mask,
                719163 + (u / 1000 + offset) / 86400,
            )
        }),
{
    let start = first_day(zone, of_day, millis);
    let today = day_at(zone, millis);
    let shown = millis / 1000 + offset;
    assert(crate::calendar::zone_offset(zone, millis / 1000) == offset);
    assert(today == 719163 + shown / 86400);
    assert(today * 86400 <= shown + 719163 * 86400 < (today + 1) * 86400);
    steady_zones_run_every_day(zone, offset, today, of_day);
    let instants = run_instants(zone, start, of_day, 7);
    assert forall|i: int| 0 <= i < 7 implies #[trigger] instants[i] == Some(
        clock_second(start + i, of_day) - offset,
    ) by {
        steady_zones_run_every_day(zone, offset, start + i, of_day);
    }
    let j = the_first_day_is_picked(mask, start, instants);
    let k = a_week_has_a_day(mask, start);
    assert(instants[k] is Some);
    assert(j < 7);
    let t = clock_second(start + j, of_day) - offset;
    assert(next_run(zone, mask, of_day, millis) == Some(t * 1000));
    let days = start + j - 719163;
    assert((days * 86400 + of_day) / 86400 == days);
    assert((days * 86400 + of_day) % 86400 == of_day);
    if millis < u < t * 1000 && u % 1000 == 0 && (u / 1000 + offset) % 86400 == of_day {
        let d = (u / 1000 + offset) / 86400;
        assert(u / 1000 + offset == d * 86400 + of_day);
        assert(d < days);
        assert(719163 + d >= start);
        let i = 719163 + d - start;
        assert(instants[i] is Some);
    }
}

/// A time of day is what two digits of an hour, a colon and two digits of a minute say.
pub proof fn times_of_day_are_hours_and_minutes(hour: int, minute: int)
    requires
        0 <= hour < 100,
        0 <= minute < 100,
    ensures
        ({
            let text = seq![
                (48 + hour / 10) as char,
                (48 + hour % 10) as char,
                ':',
                (48 + minute / 10) as char,
                (48 + minute % 10) as char,
            ];
            &&& valid_time_of_day(text) == (hour < 24 && minute < 60)
            &&& seconds_of_day(text) == 60 * (60 * hour + minute)
        }),
{
    let text = seq![
        (48 + hour / 10) as char,
        (48 + hour % 10) as char,
        ':',
        (48 + minute / 10) as char,
        (48 + minute % 10) as char,
    ];
    assert(two_digits(text, 0) == hour);
    assert(two_digits(text, 3) == minute);
}

/// A time of day is always written with two digits of an hour, a colon and two digits of a minute.
pub proof fn times_of_day_are_written_in_one_way(text: Seq<char>) -> (r: (int, int))
    requires
        valid_time_of_day(text),
    ensures
        0 <= r.0 < 24,
        0 <= r.1 < 60,
        text == seq![
            (48 + r.0 / 10) as char,
            (48 + r.0 % 10) as char,
            ':',
            (48 + r.1 / 10) as char,
            (48 + r.1 % 10) as char,
        ],
{
    let hour = two_digits(text, 0);
    let minute = two_digits(text, 3);
    let again = seq![
        (48 + hour / 10) as char,
        (48 + hour % 10) as char,
        ':',
        (48 + minute / 10) as char,
        (48 + minute % 10) as char,
    ];
    assert(text =~= again);
    (hour, minute)
}

/// What is picked is one of the instants, and its day is in the mask.
proof fn lemma_picked(mask: int, day: int, instants: Seq<Option<int>>)
    ensures
        first_in_mask(mask, day, instants) is Some ==> exists|j: int|
            0 <= j < instants.len() && #[trigger] instants[j] == first_in_mask(mask, day, instants)
                && has_day(mask, day + j),
    decreases instants.len(),
{
    if instants.len() > 0 && !(has_day(mask, day) && instants[0] is Some) {
        lemma_picked(mask, day + 1, instants.skip(1));
        if first_in_mask(mask, day, instants) is Some {
            let rest = instants.skip(1);
            let j = choose|j: int|
                0 <= j < rest.len() && #[trigger] rest[j] == first_in_mask(mask, day + 1, rest)
                    && has_day(mask, day + 1 + j);
            assert(instants[j + 1] == first_in_mask(mask, day, instants));
        }
    }
}

/// A recap is in order if and only if all of these hold.
pub proof fn valid_recaps(r: ScheduledRecap)
    ensures
        (r.fault() is None) == ({
            let ids = opt_views(r.channel_ids);
            &&& crate::utils::valid_id(r.id@) && crate::utils::valid_id(r.user_id@)
            &&& r.title@.len() > 0 && crate::text::utf8_len(r.title@) <= 255
            &&& crate::text::utf8_len(r.custom_instructions@) <= 500
            &&& 1 <= r.days_of_week <= 127
            &&& valid_time_of_day(r.time_of_day@)
            &&& crate::calendar::known_zone(r.timezone@)
            &&& r.time_period@ == "last_24h"@ || r.time_period@ == "last_week"@ || r.time_period@
                == "since_last_read"@
            &&& r.channel_mode@ == "specific"@ || r.channel_mode@ == "all_unreads"@
            &&& r.channel_mode@ == "specific"@ ==> ids.len() > 0 && forall|i: int|
                0 <= i < ids.len() ==> crate::utils::valid_id(#[trigger] ids[i])
            &&& r.agent_id@.len() > 0
        }),
{
    bad_ids_are_found(opt_views(r.channel_ids));
}

proof fn bad_ids_are_found(ids: Seq<Seq<char>>)
    ensures
        (first_bad_id(ids) is None) == (forall|i: int|
            0 <= i < ids.len() ==> crate::utils::valid_id(#[trigger] ids[i])),
        first_bad_id(ids) is Some ==> !crate::utils::valid_id(first_bad_id(ids)->0) && ids.contains(
            first_bad_id(ids)->0,
        ),
    decreases ids.len(),
{
    if ids.len() > 0 {
        let rest = ids.skip(1);
        bad_ids_are_found(rest);
        if crate::utils::valid_id(ids[0]) {
            if first_bad_id(rest) is None {
                assert forall|i: int| 0 <= i < ids.len() implies crate::utils::valid_id(
                    #[trigger] ids[i],
                ) by {
                    if i > 0 {
                        assert(rest[i - 1] == ids[i]);
                    }
                }
            } else {
                let i = choose|i: int| 0 <= i < rest.len() && rest[i] == first_bad_id(rest)->0;
                assert(ids[i + 1] == rest[i]);
            }
        } else {
            assert(ids.contains(ids[0]));
        }
    }
}

/// A recap that was made ready keeps its id, its schedule and its times where it had them; each
/// channel stands there once.
pub proof fn saved_recaps_keep_the_rest(before: ScheduledRecap, after: ScheduledRecap, now: int)
    requires
        after.is_saved(before, now),
    ensures
        before.id@.len() > 0 ==> after.id@ == before.id@,
        before.id@.len() == 0 ==> crate::utils::valid_id(after.id@),
        before.create_at != 0 ==> after.create_at == before.create_at,
        before.create_at == 0 ==> after.create_at == now,
        before.update_at != 0 ==> after.update_at == before.update_at,
        before.update_at == 0 ==> after.update_at == after.create_at,
        after.channel_ids is Some,
        opt_views(after.channel_ids).no_duplicates(),
        forall|c: Seq<char>|
            #[trigger] opt_views(after.channel_ids).contains(c) <==> opt_views(
                before.channel_ids,
            ).contains(c),
        after == (ScheduledRecap {
            id: after.id,
            channel_ids: after.channel_ids,
            create_at: after.create_at,
            update_at: after.update_at,
            ..before
        }),
{
    crate::text::firsts_are_the_distinct_strings(opt_views(before.channel_ids));
}

/// A changed recap that was made ready is changed only in the time of the change and in repetitions
/// among its channels.
pub proof fn updated_recaps_keep_the_rest(before: ScheduledRecap, after: ScheduledRecap, now: int)
    requires
        after.is_updated(before, now),
    ensures
        after.update_at == now,
        after.channel_ids is Some,
        opt_views(after.channel_ids).no_duplicates(),
        forall|c: Seq<char>|
            #[trigger] opt_views(after.channel_ids).contains(c) <==> opt_views(
                before.channel_ids,
            ).contains(c),
        after == (ScheduledRecap {
            channel_ids: after.channel_ids,
            update_at: after.update_at,
            ..before
        }),
{
    crate::text::firsts_are_the_distinct_strings(opt_views(before.channel_ids));
}

/// Where one field alone has to change for a recap to be in order, the error is that
/// of the field.
pub proof fn faults_of_a_recap_are_named(bad: ScheduledRecap, good: ScheduledRecap)
    requires
        bad.fault() is Some,
        good.fault() is None,
    ensures
        good == (ScheduledRecap { id: good.id, ..bad }) ==> crate::utils::reports(
            bad.fault()->0,
            "ScheduledRecap.IsValid"@,
            "model.scheduled_recap.is_valid."@ + "id"@ + ".app_error"@,
            "id="@ + bad.id@,
            400,
        ),
        good == (ScheduledRecap { user_id: good.user_id, ..bad }) ==> crate::utils::reports(
            bad.fault()->0,
            "ScheduledRecap.IsValid"@,
            "model.scheduled_recap.is_valid."@ + "user_id"@ + ".app_error"@,
            "user_id="@ + bad.user_id@,
            400,
        ),
        good == (ScheduledRecap { title: good.title, ..bad })
            && bad.title@.len() == 0 ==> crate::utils::reports(
            bad.fault()->0,
            "ScheduledRecap.IsValid"@,
            "model.scheduled_recap.is_valid."@ + "title_empty"@ + ".app_error"@,
            ""@,
            400,
        ),
        good == (ScheduledRecap { title: good.title, ..bad })
            && bad.title@.len() > 0 ==> crate::utils::reports(
            bad.fault()->0,
            "ScheduledRecap.IsValid"@,
            "model.scheduled_recap.is_valid."@ + "title_length"@ + ".app_error"@,
            "title_length="@ + crate::text::digits(crate::text::utf8_len(bad.title@)),
            400,
        ),
        good == (ScheduledRecap { custom_instructions: good.custom_instructions, ..bad }) ==> crate::utils::reports(
            bad.fault()->0,
            "ScheduledRecap.IsValid"@,
            "model.scheduled_recap.is_valid."@ + "custom_instructions_length"@ + ".app_error"@,
            "custom_instructions_length="@
                + crate::text::digits(crate::text::utf8_len(bad.custom_instructions@)),
            400,
        ),
        good == (ScheduledRecap { days_of_week: good.days_of_week, ..bad }) ==> crate::utils::reports(
            bad.fault()->0,
            "ScheduledRecap.IsValid"@,
            "model.scheduled_recap.is_valid."@ + "days_of_week"@ + ".app_error"@,
            "days_of_week="@ + crate::text::decimal(bad.days_of_week as int),
            400,
        ),
        good == (ScheduledRecap { time_of_day: good.time_of_day, ..bad }) ==> crate::utils::reports(
            bad.fault()->0,
            "ScheduledRecap.IsValid"@,
            "model.scheduled_recap.is_valid."@ + "time_of_day"@ + ".app_error"@,
            "time_of_day="@ + bad.time_of_day@,
            400,
        ),
        good == (ScheduledRecap { timezone: good.timezone, ..bad }) ==> crate::utils::reports(
            bad.fault()->0,
            "ScheduledRecap.IsValid"@,
            "model.scheduled_recap.is_valid."@ + "timezone"@ + ".app_error"@,
            "timezone="@ + bad.timezone@,
            400,
        ),
        good == (ScheduledRecap { time_period: good.time_period, ..bad }) ==> crate::utils::reports(
            bad.fault()->0,
            "ScheduledRecap.IsValid"@,
            "model.scheduled_recap.is_valid."@ + "time_period"@ + ".app_error"@,
            "time_period="@ + bad.time_period@,
            400,
        ),
        good == (ScheduledRecap { channel_mode: good.channel_mode, ..bad })
            && bad.channel_mode@ != "specific"@ ==> crate::utils::reports(
            bad.fault()->0,
            "ScheduledRecap.IsValid"@,
            "model.scheduled_recap.is_valid."@ + "channel_mode"@ + ".app_error"@,
            "channel_mode="@ + bad.channel_mode@,
            400,
        ),
        good == (ScheduledRecap { channel_ids: good.channel_ids, ..bad })
            && opt_views(bad.channel_ids).len() == 0 ==> crate::utils::reports(
            bad.fault()->0,
            "ScheduledRecap.IsValid"@,
            "model.scheduled_recap.is_valid."@ + "channel_ids_empty"@ + ".app_error"@,
            ""@,
            400,
        ),
        good == (ScheduledRecap { agent_id: good.agent_id, ..bad }) ==> crate::utils::reports(
            bad.fault()->0,
            "ScheduledRecap.IsValid"@,
            "model.scheduled_recap.is_valid."@ + "agent_id"@ + ".app_error"@,
            ""@,
            400,
        ),
{
}

/// What is wrong with the first fields of a recap is reported whatever the fields behind
/// them are.
pub proof fn faults_of_a_recap_come_in_order(all: ScheduledRecap, good: ScheduledRecap)
    requires
        good.fault() is None,
    ensures
        ({
            let first = ScheduledRecap { id: all.id, ..good };
            first.fault() is Some ==> all.fault() == first.fault()
        }),
        ({
            let first = ScheduledRecap { id: all.id, user_id: all.user_id, ..good };
            first.fault() is Some ==> all.fault() == first.fault()
        }),
        ({
            let first = ScheduledRecap {
                id: all.id,
                user_id: all.user_id,
                title: all.title,
                ..good
            };
            first.fault() is Some ==> all.fault() == first.fault()
        }),
        ({
            let first = ScheduledRecap {
                id: all.id,
                user_id: all.user_id,
                title: all.title,
                custom_instructions: all.custom_instructions,
                ..good
            };
            first.fault() is Some ==> all.fault() == first.fault()
        }),
        ({
            let first = ScheduledRecap {
                id: all.id,
                user_id: all.user_id,
                title: all.title,
                custom_instructions: all.custom_instructions,
                days_of_week: all.days_of_week,
                ..good
            };
            first.fault() is Some ==> all.fault() == first.fault()
        }),
        ({
            let first = ScheduledRecap {
                id: all.id,
                user_id: all.user_id,
                title: all.title,
                custom_instructions: all.custom_instructions,
                days_of_week: all.days_of_week,
                time_of_day: all.time_of_day,
                ..good
            };
            first.fault() is Some ==> all.fault() == first.fault()
        }),
        ({
            let first = ScheduledRecap {
                id: all.id,
                user_id: all.user_id,
                title: all.title,
                custom_instructions: all.custom_instructions,
                days_of_week: all.days_of_week,
                time_of_day: all.time_of_day,
                timezone: all.timezone,
                ..good
            };
            first.fault() is Some ==> all.fault() == first.fault()
        }),
        ({
            let first = ScheduledRecap {
                id: all.id,
                user_id: all.user_id,
                title: all.title,
                custom_instructions: all.custom_instructions,
                days_of_week: all.days_of_week,
                time_of_day: all.time_of_day,
                timezone: all.timezone,
                time_period: all.time_period,
                ..good
            };
            first.fault() is Some ==> all.fault() == first.fault()
        }),
        ({
            let first = ScheduledRecap {
                id: all.id,
                user_id: all.user_id,
                title: all.title,
                custom_instructions: all.custom_instructions,
                days_of_week: all.days_of_week,
                time_of_day: all.time_of_day,
                timezone: all.timezone,
                time_period: all.time_period,
                channel_mode: all.channel_mode,
                channel_ids: all.channel_ids,
                ..good
            };
            first.fault() is Some ==> all.fault() == first.fault()
        }),
        ({
            let first = ScheduledRecap {
                id: all.id,
                user_id: all.user_id,
                title: all.title,
                custom_instructions: all.custom_instructions,
                days_of_week: all.days_of_week,
                time_of_day: all.time_of_day,
                timezone: all.timezone,
                time_period: all.time_period,
                channel_mode: all.channel_mode,
                channel_ids: all.channel_ids,
                agent_id: all.agent_id,
                ..good
            };
            first.fault() is Some ==> all.fault() == first.fault()
        }),
{
}

/// A recap in order has a next run, or none of the days that are looked at can be held; an error
/// says what else is in the way of it.
pub proof fn recaps_have_a_next_run(r: ScheduledRecap, from: int)
    ensures
        ({
            let zoned = crate::calendar::known_zone(r.timezone@);
            let timed = valid_time_of_day(r.time_of_day@);
            let days = 1 <= r.days_of_week <= 127;
            let next = next_run(
                r.timezone@,
                r.days_of_week as int,
                seconds_of_day(r.time_of_day@),
                from,
            );
            let run = r.run_outcome(from);
            let reported = |field: Seq<char>, details: Seq<char>|
                run is Err && crate::utils::reports(
                    run->Err_0,
                    "ScheduledRecap.ComputeNextRunAt"@,
                    "model.scheduled_recap.compute_next_run."@ + field + ".app_error"@,
                    details,
                    400,
                );
            &&& run is Ok ==> zoned && timed && days && next == Some(run->Ok_0)
            &&& zoned && timed && days && next is Some ==> run is Ok
            &&& !zoned ==> reported("timezone"@, "timezone="@ + r.timezone@)
            &&& zoned && !timed ==> reported("time_format"@, "time_of_day="@ + r.time_of_day@)
            &&& zoned && timed && !days ==> reported(
                "days_of_week"@,
                "days_of_week="@ + crate::text::decimal(r.days_of_week as int),
            )
            &&& zoned && timed && days && next is None ==> reported("no_valid_day"@, ""@)
        }),
{
}

} // verus!
