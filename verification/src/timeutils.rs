//! Instants as texts.
//!
//! An instant is written as a date and a time with the offset of the clocks that show it. The
//! fraction of a second is as short as it can be, and is left out where it is zero.

use vstd::prelude::*;
use vstd::string::StrSliceExecFns;

use crate::calendar::{civil_date, local_offset_at, whole_days, whole_seconds};
use crate::text::{cat, zero_padded_text};

verus! {

/// The form of an instant, by example.
pub const RFC3339_MILLI: &'static str = "2006-01-02T15:04:05.999Z07:00";

/// The form of an instant, as chrono reads it.
pub const STAMP_FORMAT: &'static str = "%Y-%m-%dT%H:%M:%S%.f%:z";

/// A text that is no instant.
#[derive(Debug, Clone, PartialEq, Eq)]
pub struct TimeParseError(pub String);

/// What clocks show: a date, the second of the day, the milliseconds, and the offset of the clocks
/// from UTC in seconds.
pub struct Stamp {
    pub year: int,
    pub month: int,
    pub day: int,
    pub second: int,
    pub millis: int,
    pub offset: int,
}

/// Whether clocks can show it.
pub open spec fn is_stamp(t: Stamp) -> bool {
    &&& crate::calendar::is_date(t.year, t.month, t.day)
    &&& 0 <= t.second < 86400
    &&& 0 <= t.millis < 1000
    &&& -86400 < t.offset < 86400
}

/// The instant at which clocks show something.
pub open spec fn stamp_millis(t: Stamp) -> int {
    ((crate::calendar::day_number(t.year, t.month, t.day) - crate::calendar::EPOCH_DAY) * 86400
        + t.second - t.offset) * 1000 + t.millis
}

/// Whether clocks at an offset show this at an instant.
pub open spec fn shows(t: Stamp, millis: int, offset: int) -> bool {
    is_stamp(t) && t.offset == offset && stamp_millis(t) == millis
}

/// What clocks at an offset show at an instant.
pub open spec fn stamp_of(millis: int, offset: int) -> Stamp {
    choose|t: Stamp| shows(t, millis, offset)
}

/// Clocks show one thing at a time.
pub proof fn clocks_show_one_thing(a: Stamp, b: Stamp, millis: int, offset: int)
    requires
        shows(a, millis, offset),
        shows(b, millis, offset),
    ensures
        a == b,
{
    let x = crate::calendar::day_number(a.year, a.month, a.day);
    let y = crate::calendar::day_number(b.year, b.month, b.day);
    assert(x * 86400 + a.second == y * 86400 + b.second && a.millis == b.millis);
    assert(x == y);
    crate::calendar::dates_are_numbered_once(a.year, a.month, a.day, b.year, b.month, b.day);
}

/// Clocks show something at every instant.
pub proof fn clocks_show_something(millis: int, offset: int)
    requires
        -86400 < offset < 86400,
    ensures
        shows(stamp_of(millis, offset), millis, offset),
{
    let local = millis / 1000 + offset;
    let (year, month, day) = crate::calendar::days_have_dates(
        local / 86400 + crate::calendar::EPOCH_DAY,
    );
    let t = Stamp {
        year,
        month,
        day,
        second: local % 86400,
        millis: millis % 1000,
        offset,
    };
    assert(shows(t, millis, offset));
}

/// A year with at least four digits, the sign in front of them.
pub open spec fn year_text(year: int) -> Seq<char> {
    if year < 0 {
        "-"@ + crate::text::zero_padded((-year) as nat, 4)
    } else {
        crate::text::zero_padded(year as nat, 4)
    }
}

/// A number of milliseconds as a fraction of a second, without zeros at its end; nothing for zero.
pub open spec fn fraction_text(millis: int) -> Seq<char> {
    if millis == 0 {
        ""@
    } else {
        "."@ + crate::pattern::drop_end(
            crate::text::zero_padded(millis as nat, 3),
            |c: char| c == '0',
        )
    }
}

/// An offset in hours and minutes.
pub open spec fn numeric_offset(offset: int) -> Seq<char> {
    let size = if offset < 0 {
        -offset
    } else {
        offset
    };
    (if offset < 0 {
        "-"@
    } else {
        "+"@
    }) + two_digits(size / 3600) + ":"@ + two_digits(size % 3600 / 60)
}

/// An offset, `Z` for none.
pub open spec fn offset_text(offset: int) -> Seq<char> {
    if offset == 0 {
        "Z"@
    } else {
        numeric_offset(offset)
    }
}

/// A number with at least two digits.
pub open spec fn two_digits(n: int) -> Seq<char> {
    crate::text::zero_padded(n as nat, 2)
}

/// A date and a time.
pub open spec fn stamp_head(t: Stamp) -> Seq<char> {
    year_text(t.year) + "-"@ + two_digits(t.month) + "-"@ + two_digits(t.day) + "T"@ + two_digits(
        t.second / 3600,
    ) + ":"@ + two_digits(t.second % 3600 / 60) + ":"@ + two_digits(t.second % 60) + fraction_text(
        t.millis,
    )
}

/// An instant as clocks at an offset show it; nothing where chrono cannot hold the instant.
pub open spec fn formatted(millis: int, offset: int) -> Seq<char> {
    if crate::calendar::in_range(millis / 1000) {
        stamp_head(stamp_of(millis, offset)) + offset_text(offset)
    } else {
        ""@
    }
}

/// Writes a year.
pub fn format_year(year: i32) -> (r: String)
    ensures
        r@ == year_text(year as int),
{
    if year < 0 {
        cat("-", zero_padded_text((-(year as i64)) as u64, 4).as_str())
    } else {
        zero_padded_text(year as u64, 4)
    }
}

/// Writes a fraction of a second.
pub fn format_fraction(millis: u32) -> (r: String)
    ensures
        r@ == fraction_text(millis as int),
{
    if millis == 0 {
        return "".to_owned();
    }
    let digits: String = zero_padded_text(millis as u64, 3);
    let text: &str = digits.as_str();
    let n: usize = text.unicode_len();
    let mut end: usize = n;
    let ghost zero = |c: char| c == '0';
    assert(text@.subrange(0, n as int) == text@);
    while end > 0 && text.get_char(end - 1) == '0'
        invariant
            n == text@.len(),
            end <= n,
            zero == (|c: char| c == '0'),
            crate::pattern::drop_end(text@.subrange(0, end as int), zero)
                == crate::pattern::drop_end(text@, zero),
        decreases end,
    {
        assert(text@.subrange(0, end as int).drop_last() == text@.subrange(0, end - 1));
        end = end - 1;
    }
    cat(".", text.substring_char(0, end))
}

/// Writes an offset.
pub fn format_offset(offset: i32) -> (r: String)
    requires
        -86400 < offset < 86400,
    ensures
        r@ == offset_text(offset as int),
{
    if offset == 0 {
        return "Z".to_owned();
    }
    let size: u64 = if offset < 0 {
        (-offset) as u64
    } else {
        offset as u64
    };
    let sign: &str = if offset < 0 {
        "-"
    } else {
        "+"
    };
    let hours: String = zero_padded_text(size / 3600, 2);
    let minutes: String = zero_padded_text(size % 3600 / 60, 2);
    let mut r: String = cat(sign, hours.as_str());
    r.append(":");
    r.append(minutes.as_str());
    r
}

fn format_time(second: u64) -> (r: String)
    requires
        second < 86400,
    ensures
        r@ == two_digits(second as int / 3600) + ":"@ + two_digits(second as int % 3600 / 60)
            + ":"@ + two_digits(second as int % 60),
{
    let mut r: String = cat(zero_padded_text(second / 3600, 2).as_str(), ":");
    r.append(zero_padded_text(second % 3600 / 60, 2).as_str());
    r.append(":");
    r.append(zero_padded_text(second % 60, 2).as_str());
    r
}

/// Writes an instant as clocks at an offset from UTC show it.
pub fn format_millis_in(millis: i64, offset: i32) -> (r: String)
    requires
        -86400 < offset < 86400,
    ensures
        r@ == formatted(millis as int, offset as int),
{
    let second: i64 = whole_seconds(millis);
    if second < crate::calendar::MIN_SECOND || second > crate::calendar::MAX_SECOND {
        return "".to_owned();
    }
    let fraction: i64 = millis - second * 1000;
    let local: i64 = second + offset as i64;
    let days: i64 = whole_days(local);
    let of_day: i64 = local - days * 86400;
    let number: i32 = (days + 719163) as i32;
    let (year, month, day) = civil_date(number);
    let ghost t = Stamp {
        year: year as int,
        month: month as int,
        day: day as int,
        second: of_day as int,
        millis: fraction as int,
        offset: offset as int,
    };
    proof {
        assert(shows(t, millis as int, offset as int));
        clocks_show_one_thing(
            t,
            stamp_of(millis as int, offset as int),
            millis as int,
            offset as int,
        );
    }
    let mut r: String = cat(format_year(year).as_str(), "-");
    r.append(zero_padded_text(month as u64, 2).as_str());
    r.append("-");
    r.append(zero_padded_text(day as u64, 2).as_str());
    r.append("T");
    let ghost date = r@;
    let time: String = format_time(of_day as u64);
    r.append(time.as_str());
    r.append(format_fraction(fraction as u32).as_str());
    assert(r@ =~= stamp_head(t)) by {
        assert(r@ == date + time@ + fraction_text(t.millis));
    }
    r.append(format_offset(offset).as_str());
    r
}

/// Writes an instant as the clocks of the machine show it.
pub fn format_millis(millis: i64) -> (r: String)
    ensures
        exists|offset: int|
            -86400 < offset < 86400 && r@ == #[trigger] formatted(millis as int, offset),
{
    match local_offset_at(whole_seconds(millis)) {
        Some(offset) => format_millis_in(millis, offset),
        None => {
            assert(formatted(millis as int, 0) == ""@);
            "".to_owned()
        },
    }
}

/// The milliseconds of the instant that a text is, in a form of chrono.
pub uninterp spec fn parsed_millis(text: Seq<char>, format: Seq<char>) -> Option<int>;

/// `chrono::DateTime::parse_from_str` and `DateTime::timestamp_millis`: the instant that a text is,
/// in milliseconds; nothing where chrono refuses the text. Of the form of instants the contract
/// says one thing more: what clocks show, written with a year of at most four digits without a
/// sign or with any digits behind a minus sign, and with a numeric offset of whole minutes, is read
/// as the instant at which they show it, where chrono can hold both the date and the instant. What
/// other texts chrono reads, and as what, is left unsaid.
#[verifier::external_body]
fn parse_stamp(text: &str, format: &str) -> (r: Option<i64>)
    ensures
        match r {
            Some(m) => parsed_millis(text@, format@) == Some(m as int),
            None => parsed_millis(text@, format@) is None,
        },
        forall|t: Stamp|
            #![trigger stamp_head(t)]
            format@ == STAMP_FORMAT@ && readable(t) && text@ == stamp_head(t) + numeric_offset(
                t.offset,
            ) ==> (r is Some && r->0 == stamp_millis(t)),
{
    let parsed = chrono::DateTime::parse_from_str(text, format).ok()?;
    Some(parsed.timestamp_millis())
}

/// Whether what clocks show can be read again: the year has at most four digits or is negative,
/// the offset is one of whole minutes, and chrono can hold the date and the instant.
pub open spec fn readable(t: Stamp) -> bool {
    &&& is_stamp(t)
    &&& crate::calendar::MIN_YEAR <= t.year <= 9999
    &&& t.offset % 60 == 0
    &&& crate::calendar::in_range(stamp_millis(t) / 1000)
}

/// A text with `+00:00` in place of a `Z` at its end.
pub open spec fn normalised(s: Seq<char>) -> Seq<char> {
    if s.len() > 0 && (s.last() == 'Z' || s.last() == 'z') {
        s.drop_last() + "+00:00"@
    } else {
        s
    }
}

/// What a text is read as, where chrono reads it, with a numeric offset, as `parsed`.
pub open spec fn read_as(
    s: Seq<char>,
    parsed: Option<int>,
    r: Result<i64, TimeParseError>,
) -> bool {
    match r {
        Ok(m) => if s.len() == 0 {
            m == 0
        } else {
            parsed == Some(m as int)
        },
        Err(e) => s.len() > 0 && parsed is None && e.0@ == s,
    }
}

/// The instant that a text is, where chrono reads the text, with a numeric offset, as `parsed`. An
/// empty text is the epoch.
pub fn parsed_or_refused(s: &str, parsed: Option<i64>) -> (r: Result<i64, TimeParseError>)
    ensures
        read_as(
            s@,
            match parsed {
                Some(m) => Some(m as int),
                None => None,
            },
            r,
        ),
{
    if s.is_empty() {
        return Ok(0);
    }
    match parsed {
        Some(m) => Ok(m),
        None => Err(TimeParseError(s.to_string())),
    }
}

/// A text with a numeric offset in place of a `Z` at its end.
pub fn normalise(s: &str) -> (r: String)
    ensures
        r@ == normalised(s@),
{
    let n: usize = s.unicode_len();
    if n > 0 {
        let last: char = s.get_char(n - 1);
        if last == 'Z' || last == 'z' {
            let head: &str = s.substring_char(0, n - 1);
            assert(head@ == s@.drop_last());
            return cat(head, "+00:00");
        }
    }
    s.to_string()
}

/// Reads an instant. An empty text is the epoch; what was written by clocks at an offset of whole
/// minutes is read as the instant it was written for, unless its year has more than four digits.
pub fn parse_formated_millis(s: &str) -> (r: Result<i64, TimeParseError>)
    ensures
        read_as(s@, parsed_millis(normalised(s@), STAMP_FORMAT@), r),
        forall|millis: int, offset: int|
            #![trigger formatted(millis, offset)]
            -86400 < offset < 86400 && i64::MIN <= millis <= i64::MAX && readable(
                stamp_of(millis, offset),
            ) && s@ == formatted(millis, offset) ==> r == Ok::<i64, TimeParseError>(millis as i64),
{
    let text: String = normalise(s);
    let parsed: Option<i64> = parse_stamp(text.as_str(), STAMP_FORMAT);
    let r: Result<i64, TimeParseError> = parsed_or_refused(s, parsed);
    proof {
        assert forall|millis: int, offset: int|
            #![trigger formatted(millis, offset)]
            -86400 < offset < 86400 && i64::MIN <= millis <= i64::MAX && readable(
                stamp_of(millis, offset),
            ) && s@ == formatted(millis, offset) implies r == Ok::<i64, TimeParseError>(millis as i64) by {
            let t = stamp_of(millis, offset);
            clocks_show_something(millis, offset);
            written_stamps_are_normalised(t);
            assert(text@ == stamp_head(t) + numeric_offset(t.offset));
            assert(s@.len() > 0);
        }
    }
    r
}

/// The date of every day is written with a numeric offset once a `Z` is replaced.
proof fn written_stamps_are_normalised(t: Stamp)
    requires
        is_stamp(t),
    ensures
        normalised(stamp_head(t) + offset_text(t.offset)) == stamp_head(t) + numeric_offset(
            t.offset,
        ),
        (stamp_head(t) + offset_text(t.offset)).len() > 0,
{
    reveal_strlit("Z");
    reveal_strlit("+00:00");
    reveal_strlit("+");
    reveal_strlit("-");
    reveal_strlit(":");
    let s = stamp_head(t) + offset_text(t.offset);
    if t.offset == 0 {
        assert(s.drop_last() =~= stamp_head(t));
        assert(crate::text::digits(0) =~= seq!['0']);
        assert(two_digits(0) =~= seq!['0', '0']);
        assert(numeric_offset(0) =~= "+00:00"@);
    } else {
        let size = if t.offset < 0 {
            -t.offset
        } else {
            t.offset
        };
        let minutes = two_digits(size % 3600 / 60);
        crate::text::digits_are_digits((size % 3600 / 60) as nat);
        assert(minutes.len() > 0);
        assert('0' <= minutes.last() <= '9');
        assert(s.last() == minutes.last());
    }
}

proof fn two_digits_are_two(n: int)
    requires
        0 <= n < 100,
    ensures
        two_digits(n).len() == 2,
        '0' <= two_digits(n)[0] <= '9',
        '0' <= two_digits(n)[1] <= '9',
        10 * (two_digits(n)[0] as int - 48) + (two_digits(n)[1] as int - 48) == n,
{
    reveal_with_fuel(crate::text::digits, 3);
}

proof fn three_digits_are_three(n: int)
    requires
        0 <= n < 1000,
    ensures
        ({
            let d = crate::text::zero_padded(n as nat, 3);
            &&& d.len() == 3
            &&& '0' <= d[0] <= '9' && '0' <= d[1] <= '9' && '0' <= d[2] <= '9'
            &&& 100 * (d[0] as int - 48) + 10 * (d[1] as int - 48) + (d[2] as int - 48) == n
        }),
{
    reveal_with_fuel(crate::text::digits, 4);
}

proof fn four_digits_are_four(n: int)
    requires
        0 <= n < 10000,
    ensures
        ({
            let d = crate::text::zero_padded(n as nat, 4);
            &&& d.len() == 4
            &&& '0' <= d[0] <= '9' && '0' <= d[1] <= '9' && '0' <= d[2] <= '9' && '0' <= d[3] <= '9'
            &&& 1000 * (d[0] as int - 48) + 100 * (d[1] as int - 48) + 10 * (d[2] as int - 48) + (d[3]
                as int - 48) == n
        }),
{
    reveal_with_fuel(crate::text::digits, 5);
}

/// A date and a time are written as `yyyy-mm-ddThh:mm:ss`: the digits are those of the year, the
/// month, the day, the hours, the minutes and the seconds.
pub proof fn stamps_show_their_parts(t: Stamp)
    requires
        is_stamp(t),
        0 <= t.year <= 9999,
    ensures
        ({
            let h = stamp_head(t);
            let two = |i: int| 10 * (h[i] as int - 48) + (h[i + 1] as int - 48);
            &&& h.len() >= 19
            &&& h[4] == '-' && h[7] == '-' && h[10] == 'T' && h[13] == ':' && h[16] == ':'
            &&& 100 * two(0) + two(2) == t.year
            &&& two(5) == t.month && two(8) == t.day
            &&& 0 <= two(11) < 24 && 0 <= two(14) < 60 && 0 <= two(17) < 60
            &&& 3600 * two(11) + 60 * two(14) + two(17) == t.second
            &&& h.skip(19) == fraction_text(t.millis)
        }),
{
    reveal_strlit("-");
    reveal_strlit("T");
    reveal_strlit(":");
    let y = year_text(t.year);
    let m = two_digits(t.month);
    let d = two_digits(t.day);
    let hours = two_digits(t.second / 3600);
    let minutes = two_digits(t.second % 3600 / 60);
    let seconds = two_digits(t.second % 60);
    four_digits_are_four(t.year);
    two_digits_are_two(t.month);
    two_digits_are_two(t.day);
    two_digits_are_two(t.second / 3600);
    two_digits_are_two(t.second % 3600 / 60);
    two_digits_are_two(t.second % 60);
    let h = stamp_head(t);
    let whole = y + seq!['-'] + m + seq!['-'] + d + seq!['T'] + hours + seq![':'] + minutes + seq![':']
        + seconds;
    assert("-"@ =~= seq!['-'] && "T"@ =~= seq!['T'] && ":"@ =~= seq![':']);
    assert(h =~= whole + fraction_text(t.millis));
    assert(whole.len() == 19);
    assert(h[0] == y[0] && h[1] == y[1] && h[2] == y[2] && h[3] == y[3]);
    assert(h[5] == m[0] && h[6] == m[1] && h[8] == d[0] && h[9] == d[1]);
    assert(h[11] == hours[0] && h[12] == hours[1]);
    assert(h[14] == minutes[0] && h[15] == minutes[1]);
    assert(h[17] == seconds[0] && h[18] == seconds[1]);
    assert(h.skip(19) =~= fraction_text(t.millis));
}

/// The digits behind the point are the thousandths of the second, none of them a zero at the end.
pub proof fn fractions_are_thousandths(millis: int)
    requires
        0 <= millis < 1000,
    ensures
        millis == 0 ==> fraction_text(millis).len() == 0,
        millis > 0 ==> ({
            let f = fraction_text(millis);
            let d = |i: int|
                if i < f.len() {
                    f[i] as int - 48
                } else {
                    0
                };
            &&& 2 <= f.len() <= 4
            &&& f[0] == '.'
            &&& f.last() != '0'
            &&& forall|i: int| 1 <= i < f.len() ==> '0' <= #[trigger] f[i] <= '9'
            &&& 100 * d(1) + 10 * d(2) + d(3) == millis
        }),
{
    reveal_strlit("");
    reveal_strlit(".");
    three_digits_are_three(millis);
    let z = crate::text::zero_padded(millis as nat, 3);
    let zero = |c: char| c == '0';
    reveal_with_fuel(crate::pattern::drop_end, 4);
    assert(z.drop_last() =~= seq![z[0], z[1]]);
    assert(z.drop_last().drop_last() =~= seq![z[0]]);
    let kept = crate::pattern::drop_end(z, zero);
    assert(millis > 0 ==> kept == z || kept == z.drop_last() || kept == z.drop_last().drop_last());
    assert(millis > 0 ==> fraction_text(millis) =~= seq!['.'] + kept);
}

/// An offset is written with its sign, its hours and its minutes, and no offset as `Z`.
pub proof fn offsets_are_hours_and_minutes(offset: int)
    requires
        -86400 < offset < 86400,
    ensures
        offset == 0 ==> offset_text(offset) == "Z"@,
        offset != 0 ==> offset_text(offset) == numeric_offset(offset),
        ({
            let s = numeric_offset(offset);
            let two = |i: int| 10 * (s[i] as int - 48) + (s[i + 1] as int - 48);
            let size = if offset < 0 {
                -offset
            } else {
                offset
            };
            &&& s.len() == 6
            &&& s[0] == (if offset < 0 {
                '-'
            } else {
                '+'
            })
            &&& s[3] == ':'
            &&& 0 <= two(1) < 24 && 0 <= two(4) < 60
            &&& 60 * two(1) + two(4) == size / 60
        }),
{
    reveal_strlit("-");
    reveal_strlit("+");
    reveal_strlit(":");
    let size = if offset < 0 {
        -offset
    } else {
        offset
    };
    two_digits_are_two(size / 3600);
    two_digits_are_two(size % 3600 / 60);
    let s = numeric_offset(offset);
    let hours = two_digits(size / 3600);
    let minutes = two_digits(size % 3600 / 60);
    assert(s[1] == hours[0] && s[2] == hours[1] && s[4] == minutes[0] && s[5] == minutes[1]);
}

/// What clocks show at an instant is what is written for it.
pub proof fn what_clocks_show_is_written(t: Stamp, millis: int, offset: int)
    requires
        shows(t, millis, offset),
        crate::calendar::in_range(millis / 1000),
    ensures
        formatted(millis, offset) == stamp_head(t) + offset_text(offset),
{
    clocks_show_something(millis, offset);
    clocks_show_one_thing(t, stamp_of(millis, offset), millis, offset);
}

/// An instant that chrono cannot hold is not written.
pub proof fn far_instants_are_not_written(millis: int, offset: int)
    requires
        !crate::calendar::in_range(millis / 1000),
    ensures
        formatted(millis, offset).len() == 0,
{
    reveal_strlit("");
}

/// Clocks start at the epoch and run by milliseconds, seconds and days; clocks that are ahead show a
/// time earlier.
pub proof fn clocks_run_evenly(t: Stamp, more: int)
    ensures
        stamp_millis(
            Stamp { year: 1970, month: 1, day: 1, second: 0, millis: 0, offset: 0 },
        ) == 0,
        stamp_millis(Stamp { millis: t.millis + more, ..t }) == stamp_millis(t) + more,
        stamp_millis(Stamp { second: t.second + more, ..t }) == stamp_millis(t) + 1000 * more,
        stamp_millis(Stamp { day: t.day + more, ..t }) == stamp_millis(t) + 86400000 * more,
        stamp_millis(Stamp { offset: t.offset + more, ..t }) == stamp_millis(t) - 1000 * more,
{
    crate::calendar::days_follow_each_other(1, 1, 1);
}

/// A `Z` at the end, large or small, is no offset; a text that ends otherwise is read as it is.
pub proof fn zulu_is_no_offset(s: Seq<char>, c: char)
    ensures
        normalised(s.push('Z')) == s + "+00:00"@,
        normalised(s.push('z')) == s + "+00:00"@,
        c != 'Z' && c != 'z' ==> normalised(s.push(c)) == s.push(c),
        normalised(Seq::empty()) == Seq::<char>::empty(),
{
    assert(s.push('Z').drop_last() =~= s);
    assert(s.push('z').drop_last() =~= s);
}

/// The empty text is the epoch; another text is what chrono reads, or is handed back as an error.
pub proof fn texts_are_read_or_refused(
    s: Seq<char>,
    parsed: Option<int>,
    r: Result<i64, TimeParseError>,
)
    requires
        read_as(s, parsed, r),
    ensures
        s.len() == 0 ==> r is Ok && r->Ok_0 == 0,
        s.len() > 0 && parsed is Some ==> r is Ok && r->Ok_0 == parsed->0,
        s.len() > 0 && parsed is None ==> r is Err && r->Err_0.0@ == s,
{
}

} // verus!
