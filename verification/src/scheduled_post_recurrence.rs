//! When a scheduled post is sent again.
//!
//! A week later means the same time on the clocks of the zone, seven days on. Each step starts from
//! the instant before it, so an hour that a step had to move by, because the clocks skip it, stays
//! moved from there on.

use vstd::prelude::*;

use crate::calendar::{add_days, is_known_zone, whole_seconds, MAX_SECOND, MIN_SECOND};
use crate::scheduled_post::ScheduledPost;
use crate::text::{cat, cat4, same};
use crate::utils::quote;

verus! {

/// The post is sent once.
pub const SCHEDULED_POST_REPEAT_TYPE_NONE: &'static str = "";

/// The post is sent each week.
pub const SCHEDULED_POST_REPEAT_TYPE_WEEKLY: &'static str = "weekly";

/// Why there is no next time.
#[derive(Debug, Clone, PartialEq, Eq)]
pub enum ComputeNextScheduledAtError {
    /// The zone is not known.
    LoadTimezone { name: String },
    /// The post is not one that is repeated each week.
    UnsupportedRepeatType(String),
    /// The next time is out of the range of dates.
    OutOfRange,
}

impl ComputeNextScheduledAtError {
    /// The text of the error.
    pub open spec fn text(&self) -> Seq<char> {
        match self {
            ComputeNextScheduledAtError::LoadTimezone { name } => "failed to load repeat timezone "@
                + crate::utils::quoted(name@) + ": unknown time zone "@ + name@,
            ComputeNextScheduledAtError::UnsupportedRepeatType(t) =>
                "unsupported scheduled post repeat type "@ + crate::utils::quoted(t@),
            ComputeNextScheduledAtError::OutOfRange =>
                "scheduled post recurrence left the representable range of dates"@,
        }
    }

    /// The text of the error.
    pub fn to_text(&self) -> (r: String)
        ensures
            r@ == self.text(),
    {
        match self {
            ComputeNextScheduledAtError::LoadTimezone { name } => {
                let quoted: String = quote(name.as_str());
                cat4(
                    "failed to load repeat timezone ",
                    quoted.as_str(),
                    ": unknown time zone ",
                    name.as_str(),
                )
            },
            ComputeNextScheduledAtError::UnsupportedRepeatType(t) => {
                let quoted: String = quote(t.as_str());
                cat("unsupported scheduled post repeat type ", quoted.as_str())
            },
            ComputeNextScheduledAtError::OutOfRange => {
                "scheduled post recurrence left the representable range of dates".to_owned()
            },
        }
    }
}

/// The `n`th time after the first, each a week after the one before on the clocks of the zone;
/// nothing where a time on the way is out of range.
pub open spec fn occurrence(zone: Seq<char>, first: int, n: nat) -> Option<int>
    decreases n,
{
    if n == 0 {
        if crate::calendar::in_range(first / 1000) {
            Some(first)
        } else {
            None
        }
    } else {
        match occurrence(zone, first, (n - 1) as nat) {
            Some(t) => crate::calendar::days_later(zone, t, 7),
            None => None,
        }
    }
}

/// All of the first `n` repetitions are in range and not after `now`.
pub open spec fn all_past(zone: Seq<char>, first: int, n: nat, now: int) -> bool {
    forall|k: nat|
        1 <= k <= n ==> (#[trigger] occurrence(zone, first, k)) is Some && occurrence(
            zone,
            first,
            k,
        )->0 <= now
}

/// `t` is the first repetition after `now`.
pub open spec fn is_next(zone: Seq<char>, first: int, now: int, t: int) -> bool {
    exists|n: nat|
        #![trigger all_past(zone, first, n, now)]
        all_past(zone, first, n, now) && occurrence(zone, first, n + 1) == Some(t) && t > now
}

/// The repetitions leave the range of dates before one lies after `now`.
pub open spec fn runs_out(zone: Seq<char>, first: int, now: int) -> bool {
    ||| occurrence(zone, first, 0) is None
    ||| exists|n: nat|
        #![trigger all_past(zone, first, n, now)]
        all_past(zone, first, n, now) && occurrence(zone, first, n + 1) is None
}

/// The name under which a zone is looked up: no name is UTC.
pub open spec fn zone_name(name: Seq<char>) -> Seq<char> {
    if name.len() == 0 {
        "UTC"@
    } else {
        name
    }
}

impl ScheduledPost {
    /// Whether the post is sent more than once.
    pub fn is_recurring(&self) -> (r: bool)
        ensures
            r == (self.repeat_type@ == SCHEDULED_POST_REPEAT_TYPE_WEEKLY@),
    {
        same(self.repeat_type.as_str(), SCHEDULED_POST_REPEAT_TYPE_WEEKLY)
    }

    /// The next time strictly after a time of the clock, in milliseconds. The first step is always
    /// taken, so the answer lies at least one step after the time to be sent at: a week, give or
    /// take what the clocks of the zone moved in between, which is less than two days.
    pub fn compute_next_scheduled_at(&self, now_millis: i64) -> (r: Result<
        i64,
        ComputeNextScheduledAtError,
    >)
        ensures
            ({
                let weekly = self.repeat_type@ == SCHEDULED_POST_REPEAT_TYPE_WEEKLY@;
                let zone = zone_name(self.repeat_timezone@);
                let known = crate::calendar::known_zone(zone);
                let first = self.scheduled_at as int;
                match r {
                    Ok(t) => weekly && known && is_next(zone, first, now_millis as int, t as int)
                        && t > now_millis && t - first > 5 * 86400000 && exists|p: int|
                        (p == first || p <= now_millis)
                            && #[trigger] crate::calendar::same_time_later(zone, p, 7, t as int),
                    Err(ComputeNextScheduledAtError::UnsupportedRepeatType(t)) => !weekly && t
                        == self.repeat_type,
                    Err(ComputeNextScheduledAtError::LoadTimezone { name }) => weekly && !known
                        && name == self.repeat_timezone,
                    Err(ComputeNextScheduledAtError::OutOfRange) => weekly && known && runs_out(
                        zone,
                        first,
                        now_millis as int,
                    ),
                }
            }),
    {
        if !same(self.repeat_type.as_str(), SCHEDULED_POST_REPEAT_TYPE_WEEKLY) {
            return Err(
                ComputeNextScheduledAtError::UnsupportedRepeatType(self.repeat_type.clone()),
            );
        }
        let zone: &str = if self.repeat_timezone.as_str().is_empty() {
            "UTC"
        } else {
            self.repeat_timezone.as_str()
        };
        if !is_known_zone(zone) {
            return Err(
                ComputeNextScheduledAtError::LoadTimezone { name: self.repeat_timezone.clone() },
            );
        }
        let ghost first = self.scheduled_at as int;
        let second: i64 = whole_seconds(self.scheduled_at);
        if second < MIN_SECOND || second > MAX_SECOND {
            return Err(ComputeNextScheduledAtError::OutOfRange);
        }
        let mut next: i64 = match add_days(zone, self.scheduled_at, 7) {
            Some(t) => t,
            None => {
                assert(all_past(zone@, first, 0, now_millis as int));
                assert(occurrence(zone@, first, 0) == Some(first));
                assert(occurrence(zone@, first, 1) is None);
                return Err(ComputeNextScheduledAtError::OutOfRange);
            },
        };
        let ghost mut n: nat = 0;
        let ghost mut previous: int = first;
        proof {
            assert(occurrence(zone@, first, 0) == Some(first));
            assert(occurrence(zone@, first, 1) == Some(next as int));
        }
        while next <= now_millis
            invariant
                crate::calendar::known_zone(zone@),
                all_past(zone@, first, n, now_millis as int),
                occurrence(zone@, first, n + 1) == Some(next as int),
                zone@ == zone_name(self.repeat_timezone@),
                first == self.scheduled_at,
                next - first > 5 * 86400000,
                previous == first || previous <= now_millis,
                crate::calendar::same_time_later(zone@, previous, 7, next as int),
                self.repeat_type@ == SCHEDULED_POST_REPEAT_TYPE_WEEKLY@,
            decreases
                    if next <= now_millis {
                        now_millis - next + 1
                    } else {
                        0
                    },
        {
            let ghost before = next;
            assert(all_past(zone@, first, n + 1, now_millis as int)) by {
                assert forall|k: nat| 1 <= k <= n + 1 implies (#[trigger] occurrence(
                    zone@,
                    first,
                    k,
                )) is Some && occurrence(zone@, first, k)->0 <= now_millis as int by {
                    if k == n + 1 {
                    }
                }
            }
            match add_days(zone, next, 7) {
                Some(t) => {
                    next = t;
                    assert(occurrence(zone@, first, n + 2) == Some(t as int));
                },
                None => {
                    assert(occurrence(zone@, first, n + 2) is None);
                    return Err(ComputeNextScheduledAtError::OutOfRange);
                },
            }
            proof {
                n = n + 1;
                previous = before as int;
            }
        }
        Ok(next)
    }
}

/// A post stays at its time of day: after any number of weeks the clocks of the zone show the time
/// of the first instant again, to the millisecond, where they show it at all in each of the weeks.
pub proof fn weekly_posts_keep_their_time(zone: Seq<char>, first: int, n: nat)
    requires
        occurrence(zone, first, n) is Some,
        forall|k: int|
            1 <= k <= n ==> #[trigger] time_is_shown(
                zone,
                (first + 1000 * crate::calendar::zone_offset(zone, first / 1000)) / 1000 + k * 604800,
            ),
    ensures
        ({
            let t = occurrence(zone, first, n)->0;
            t + 1000 * crate::calendar::zone_offset(zone, t / 1000) == first + 1000
                * crate::calendar::zone_offset(zone, first / 1000) + n * 604800000
        }),
    decreases n,
{
    if n > 0 {
        let m = (n - 1) as nat;
        weekly_posts_keep_their_time(zone, first, m);
        let t = occurrence(zone, first, m)->0;
        let shown = first + 1000 * crate::calendar::zone_offset(zone, first / 1000);
        let local = shown / 1000 + n * 604800;
        assert(time_is_shown(zone, local));
        let (at, before, after, s) = choose|at: int, before: int, after: int, s: int|
            crate::calendar::in_range(s) && -86400 < s - local < 86400 && #[trigger] crate::calendar::clock_at(zone, s) == local
                && #[trigger] crate::calendar::changes_once(zone, local, at, before, after);
        assert(t + 1000 * crate::calendar::zone_offset(zone, t / 1000) + 7 * 86400000 == shown + n
            * 604800000);
        assert((shown + n * 604800000) / 1000 == local);
        crate::calendar::days_later_is_the_same_time(zone, t, 7, at, before, after);
        assert(s + crate::calendar::zone_offset(zone, s) == local);
    }
}

/// Whether the clocks of a zone show a time, with at most one change of the offset in the two days
/// around it.
pub open spec fn time_is_shown(zone: Seq<char>, local: int) -> bool {
    exists|at: int, before: int, after: int, s: int|
        crate::calendar::in_range(s) && -86400 < s - local < 86400
            && #[trigger] crate::calendar::clock_at(zone, s) == local
            && #[trigger] crate::calendar::changes_once(zone, local, at, before, after)
}

/// In a zone whose offset does not change, the next time is the first after now that is a number of
/// weeks, one at least, after the first.
pub proof fn steady_zones_repeat_by_weeks(
    zone: Seq<char>,
    offset: int,
    first: int,
    now: int,
    t: int,
)
    requires
        forall|s: int|
            crate::calendar::in_range(s) ==> #[trigger] crate::calendar::zone_offset(zone, s) == offset,
        is_next(zone, first, now, t),
    ensures
        (t - first) % 604800000 == 0,
        t >= first + 604800000,
        t > now,
        t - 604800000 <= now || t == first + 604800000,
{
    let n = choose|n: nat|
        #![trigger all_past(zone, first, n, now)]
        all_past(zone, first, n, now) && occurrence(zone, first, n + 1) == Some(t) && t > now;
    steady_occurrences(zone, offset, first, n + 1);
    if n > 0 {
        assert(occurrence(zone, first, n)->0 <= now);
        steady_occurrences(zone, offset, first, n);
    }
    assert(((n + 1) * 604800000) % 604800000 == 0);
}

proof fn steady_occurrences(zone: Seq<char>, offset: int, first: int, n: nat)
    requires
        forall|s: int|
            crate::calendar::in_range(s) ==> #[trigger] crate::calendar::zone_offset(zone, s) == offset,
        occurrence(zone, first, n) is Some,
    ensures
        occurrence(zone, first, n)->0 == first + n * 604800000,
    decreases n,
{
    if n > 0 {
        let m = (n - 1) as nat;
        steady_occurrences(zone, offset, first, m);
        crate::calendar::steady_zones_step_by_hours(zone, offset, occurrence(zone, first, m)->0, 7);
    }
}

/// The first repetition after an instant is one and the same, and where there is one the repetitions
/// do not run out before it.
pub proof fn next_times_are_unique(zone: Seq<char>, first: int, now: int, t: int, other: int)
    requires
        is_next(zone, first, now, t),
    ensures
        is_next(zone, first, now, other) ==> other == t,
        !runs_out(zone, first, now),
{
    let n = choose|n: nat|
        #![trigger all_past(zone, first, n, now)]
        all_past(zone, first, n, now) && occurrence(zone, first, n + 1) == Some(t) && t > now;
    lemma_first_occurrence(zone, first, n + 1);
    assert forall|m: nat| #[trigger] all_past(zone, first, m, now) implies m <= n && occurrence(
        zone,
        first,
        m + 1,
    ) is Some && (m < n ==> occurrence(zone, first, m + 1)->0 <= now) by {
        if m > n {
            assert(occurrence(zone, first, n + 1)->0 <= now);
        }
        if m < n {
            assert(occurrence(zone, first, m + 1) is Some);
        }
    }
}

proof fn lemma_first_occurrence(zone: Seq<char>, first: int, n: nat)
    requires
        occurrence(zone, first, n) is Some,
    ensures
        occurrence(zone, first, 0) is Some,
    decreases n,
{
    if n > 0 {
        lemma_first_occurrence(zone, first, (n - 1) as nat);
    }
}

proof fn occurrences_start_in_range(zone: Seq<char>, first: int, n: nat)
    requires
        occurrence(zone, first, n) is Some,
    ensures
        occurrence(zone, first, 0) is Some,
    decreases n,
{
    if n > 0 {
        occurrences_start_in_range(zone, first, (n - 1) as nat);
    }
}

/// The repetitions do not run out where there is a next one, and the next one lies after now.
pub proof fn repetitions_come_or_run_out(zone: Seq<char>, first: int, now: int, t: int)
    requires
        is_next(zone, first, now, t),
    ensures
        !runs_out(zone, first, now),
        t > now,
{
    let n = choose|n: nat|
        #![trigger all_past(zone, first, n, now)]
        all_past(zone, first, n, now) && occurrence(zone, first, n + 1) == Some(t) && t > now;
    occurrences_start_in_range(zone, first, n + 1);
    if runs_out(zone, first, now) {
        let m = choose|m: nat|
            #![trigger all_past(zone, first, m, now)]
            all_past(zone, first, m, now) && occurrence(zone, first, m + 1) is None;
        if m < n {
            assert(occurrence(zone, first, m + 1) is Some);
        } else if n < m {
            assert(occurrence(zone, first, n + 1)->0 <= now);
        }
    }
}

/// A zone has its own name, and UTC is the zone that has none.
pub proof fn nameless_zones_are_utc(name: Seq<char>)
    ensures
        zone_name(Seq::empty()) == "UTC"@,
        name.len() > 0 ==> zone_name(name) == name,
{
}

} // verus!
