use vstd::prelude::*;

use crate::model::Interval;
use crate::util::{DAY, HOUR, MINUTE};

verus! {

/// The shortest interval a task may repeat at: four hours, in microseconds.
pub const MIN_INTERVAL: i64 = 14_400_000_000;

/// The offset, in microseconds, of a timezone given as hours and minutes;
/// the minutes count in the direction of the hours, so that `-5` and `30`
/// stand for five and a half hours behind UTC.
pub open spec fn timezone_offset(hour: int, minutes: int) -> int {
    if hour >= 0 {
        minutes * MINUTE + hour * HOUR
    } else {
        -minutes * MINUTE + hour * HOUR
    }
}

/// The timezone offset of `hour` hours and `minutes` minutes (see
/// `timezone_offset`).
pub fn timezone_from_parts(hour: i8, minutes: i8) -> (r: Interval)
    ensures
        r.microseconds == timezone_offset(hour as int, minutes as int),
{
    let h = hour as i64;
    let m = minutes as i64;
    if h >= 0 {
        Interval { microseconds: m * MINUTE + h * HOUR }
    } else {
        Interval { microseconds: -m * MINUTE + h * HOUR }
    }
}

/// A timezone was changed by one of its hours and minutes only.
#[derive(Clone, Copy, Debug, PartialEq, Eq, Structural)]
pub enum TimezoneError {
    Incomplete,
}

/// The timezone after an update that may give new hours and minutes: both
/// or neither must be given; with neither, `current` stays.
pub fn updated_timezone(hour: Option<i8>, minutes: Option<i8>, current: Interval) -> (r: Result<
    Interval,
    TimezoneError,
>)
    ensures
        match (hour, minutes) {
            (Some(h), Some(m)) => r == Ok::<Interval, TimezoneError>(
                Interval { microseconds: timezone_offset(h as int, m as int) as i64 },
            ),
            (None, None) => r == Ok::<Interval, TimezoneError>(current),
            _ => r == Err::<Interval, TimezoneError>(TimezoneError::Incomplete),
        },
{
    match (hour, minutes) {
        (Some(h), Some(m)) => Ok(timezone_from_parts(h, m)),
        (None, None) => Ok(current),
        _ => Err(TimezoneError::Incomplete),
    }
}

/// Why an interval was refused.
#[derive(Clone, Copy, Debug, PartialEq, Eq, Structural)]
pub enum IntervalError {
    /// Shorter than `MIN_INTERVAL`.
    TooShort,
    /// Longer than a time span can hold.
    TooLong,
}

/// The value of an optional count, with a missing one as zero.
pub open spec fn or_zero(n: Option<i64>) -> int {
    match n {
        Some(v) => v as int,
        None => 0,
    }
}

/// The length, in microseconds, of an interval given in days, hours and
/// minutes, each of which may be left out.
pub open spec fn interval_length(days: Option<i64>, hours: Option<i64>, minutes: Option<i64>) -> int {
    or_zero(days) * DAY + or_zero(hours) * HOUR + or_zero(minutes) * MINUTE
}

fn part_length(n: Option<i64>, unit: i64) -> (r: i128)
    requires
        0 < unit <= DAY,
    ensures
        r == or_zero(n) * unit,
{
    match n {
        Some(v) => {
            assert(-0x8000_0000_0000_0000 * DAY <= v * unit <= 0x7fff_ffff_ffff_ffff * DAY)
                by (nonlinear_arith)
                requires
                    0 < unit <= DAY,
                    -0x8000_0000_0000_0000 <= v <= 0x7fff_ffff_ffff_ffff,
            ;
            (v as i128) * (unit as i128)
        },
        None => 0,
    }
}

/// The interval a task repeats at, from its days, hours and minutes; it
/// must be at least `MIN_INTERVAL` long.
pub fn schedule_interval(days: Option<i64>, hours: Option<i64>, minutes: Option<i64>) -> (r: Result<
    Interval,
    IntervalError,
>)
    ensures
        interval_length(days, hours, minutes) < MIN_INTERVAL ==> r == Err::<
            Interval,
            IntervalError,
        >(IntervalError::TooShort),
        interval_length(days, hours, minutes) > i64::MAX ==> r == Err::<Interval, IntervalError>(
            IntervalError::TooLong,
        ),
        MIN_INTERVAL <= interval_length(days, hours, minutes) <= i64::MAX ==> r == Ok::<
            Interval,
            IntervalError,
        >(Interval { microseconds: interval_length(days, hours, minutes) as i64 }),
{
    let total = part_length(days, DAY) + part_length(hours, HOUR) + part_length(minutes, MINUTE);
    if total < MIN_INTERVAL as i128 {
        Err(IntervalError::TooShort)
    } else if total > i64::MAX as i128 {
        Err(IntervalError::TooLong)
    } else {
        Ok(Interval { microseconds: total as i64 })
    }
}

/// The first run of a task that starts at `hour`:`minute` in a timezone
/// `tz` microseconds ahead of UTC: that time on the UTC day of `now`, or a
/// day later when it is already past.
pub open spec fn first_run_time(now: int, hour: int, minute: int, tz: int) -> int {
    let t = (now / DAY as int) * DAY + hour * HOUR + minute * MINUTE - tz;
    if t < now {
        t + DAY
    } else {
        t
    }
}

/// The first run of a task (see `first_run_time`), or `None` when that
/// time cannot be represented.
pub fn first_run(now: i64, hour: i8, minute: i8, timezone: &Interval) -> (r: Option<i64>)
    requires
        0 <= hour <= 23,
        0 <= minute <= 59,
    ensures
        ({
            let t = first_run_time(now as int, hour as int, minute as int, timezone.microseconds as int);
            &&& i64::MIN <= t <= i64::MAX ==> r == Some(t as i64)
            &&& (t < i64::MIN || t > i64::MAX) ==> r is None
        }),
{
    let n = now as i128;
    let d = DAY as i128;
    let day: i128 = if n >= 0 {
        n / d
    } else {
        -((-(n + 1)) / d) - 1
    };
    assert(day == (now as int) / (DAY as int)) by (nonlinear_arith)
        requires
            d == DAY,
            n == now,
            n >= 0 ==> day == (n as int) / (d as int),
            n < 0 ==> day == -((-(n + 1)) / (d as int)) - 1,
    ;
    assert(n - d < day * d <= n) by (nonlinear_arith)
        requires
            d == DAY,
            n == now,
            day == (now as int) / (DAY as int),
    ;
    let mut t = day * d + (hour as i128) * 3_600_000_000i128 + (minute as i128) * 60_000_000i128
        - (timezone.microseconds as i128);
    if t < n {
        t = t + d;
    }
    if t < i64::MIN as i128 || t > i64::MAX as i128 {
        None
    } else {
        Some(t as i64)
    }
}

/// Whether a task may be deleted from a guild.
#[derive(Clone, Copy, Debug, PartialEq, Eq, Structural)]
pub enum DeleteCheck {
    /// No such task in this guild.
    Unknown,
    /// The task belongs to someone else.
    NotOwner,
    /// The task may be deleted.
    Allowed,
}

/// Decides on deleting a task, asked for from `guild` by `author`.
/// `task_guild` is the guild of the task, if there is such a task; `owner`
/// is the user who owns it, or `None` when the asker may delete any task of
/// the guild.
pub fn delete_check(task_guild: Option<i64>, guild: i64, owner: Option<i64>, author: i64) -> (r:
    DeleteCheck)
    ensures
        r == if task_guild != Some(guild) {
            DeleteCheck::Unknown
        } else if owner is Some && owner != Some(author) {
            DeleteCheck::NotOwner
        } else {
            DeleteCheck::Allowed
        },
{
    match task_guild {
        Some(g) if g == guild => match owner {
            Some(o) if o != author => DeleteCheck::NotOwner,
            _ => DeleteCheck::Allowed,
        },
        _ => DeleteCheck::Unknown,
    }
}

} // verus!
