use reminder_pup::commands::{
    delete_check, first_run, schedule_interval, timezone_from_parts, updated_timezone,
    DeleteCheck, IntervalError, TimezoneError,
};
use reminder_pup::model::{Interval, Schedule};
use reminder_pup::notice::{delivery_message, escalation_message, fallback_message, praise_message};
use reminder_pup::util::{format_timezone, pginterval_to_string, push_decimal, DAY, HOUR, MINUTE};

fn schedule() -> Schedule {
    Schedule {
        id: 1,
        guild_id: 7,
        user_id: 42,
        channel_id: 99,
        task: "drink water".to_string(),
        task_secondary: "drunk water".to_string(),
        praise: "a treat".to_string(),
        praise_name: "good pup".to_string(),
        interval: Interval { microseconds: 4 * HOUR },
        created: 0,
        next_run: 0,
    }
}

fn interval(us: i64) -> String {
    pginterval_to_string(&Interval { microseconds: us })
}

fn timezone(us: i64) -> String {
    format_timezone(&Interval { microseconds: us })
}

#[test]
fn interval_names_finest_nonzero_unit() {
    assert_eq!(interval(4 * HOUR), "4 hours ");
    assert_eq!(interval(HOUR), "1 hour ");
    assert_eq!(interval(DAY), "1 day ");
    assert_eq!(interval(3 * DAY), "3 days ");
    assert_eq!(interval(MINUTE), "1 minute");
    assert_eq!(interval(DAY + 2 * HOUR), "2 hours ");
    assert_eq!(interval(DAY + 2 * HOUR + 5 * MINUTE), "5 minutes");
    assert_eq!(interval(59_000_000), "");
    assert_eq!(interval(0), "");
    assert_eq!(interval(-DAY), "");
}

#[test]
fn timezone_shows_hours_and_padded_minutes() {
    assert_eq!(timezone(0), "0:00");
    assert_eq!(timezone(5 * HOUR + 30 * MINUTE), "5:30");
    assert_eq!(timezone(-(5 * HOUR + 30 * MINUTE)), "-5:30");
    assert_eq!(timezone(14 * HOUR + 5 * MINUTE), "14:05");
    assert_eq!(timezone(-12 * HOUR), "-12:00");
    assert_eq!(timezone(-30 * MINUTE), "0:30");
}

#[test]
fn decimal_writing() {
    let mut s = String::from("n=");
    push_decimal(&mut s, 0);
    assert_eq!(s, "n=0");
    let mut s = String::new();
    push_decimal(&mut s, u64::MAX);
    assert_eq!(s, u64::MAX.to_string());
    let mut s = String::new();
    push_decimal(&mut s, 907);
    assert_eq!(s, "907");
}

#[test]
fn timezone_parts() {
    assert_eq!(timezone_from_parts(5, 30).microseconds, 5 * HOUR + 30 * MINUTE);
    assert_eq!(timezone_from_parts(-5, 30).microseconds, -(5 * HOUR + 30 * MINUTE));
    assert_eq!(timezone_from_parts(0, 45).microseconds, 45 * MINUTE);
    assert_eq!(timezone_from_parts(14, 0).microseconds, 14 * HOUR);
}

#[test]
fn timezone_update_needs_both_parts() {
    let current = Interval { microseconds: 2 * HOUR };
    assert_eq!(updated_timezone(None, None, current), Ok(current));
    assert_eq!(
        updated_timezone(Some(-3), Some(15), current),
        Ok(Interval { microseconds: -(3 * HOUR + 15 * MINUTE) })
    );
    assert_eq!(updated_timezone(Some(1), None, current), Err(TimezoneError::Incomplete));
    assert_eq!(updated_timezone(None, Some(1), current), Err(TimezoneError::Incomplete));
}

#[test]
fn interval_must_be_four_hours() {
    assert_eq!(schedule_interval(None, Some(4), None), Ok(Interval { microseconds: 4 * HOUR }));
    assert_eq!(
        schedule_interval(Some(1), Some(2), Some(3)),
        Ok(Interval { microseconds: DAY + 2 * HOUR + 3 * MINUTE })
    );
    assert_eq!(schedule_interval(None, Some(3), Some(59)), Err(IntervalError::TooShort));
    assert_eq!(schedule_interval(None, None, None), Err(IntervalError::TooShort));
    assert_eq!(schedule_interval(None, None, Some(240)), Ok(Interval { microseconds: 4 * HOUR }));
    assert_eq!(schedule_interval(Some(i64::MAX), None, None), Err(IntervalError::TooLong));
    assert_eq!(schedule_interval(Some(i64::MIN), None, None), Err(IntervalError::TooShort));
}

#[test]
fn first_run_is_today_or_tomorrow() {
    let day = 20_000 * DAY;
    // 08:00 UTC now; 09:00 in UTC is still ahead today.
    assert_eq!(first_run(day + 8 * HOUR, 9, 0, &Interval { microseconds: 0 }), Some(day + 9 * HOUR));
    // 09:00 at UTC+2 is 07:00 UTC, already past: tomorrow.
    assert_eq!(
        first_run(day + 8 * HOUR, 9, 0, &Interval { microseconds: 2 * HOUR }),
        Some(day + DAY + 7 * HOUR)
    );
    // 23:30 at UTC-5 is 04:30 UTC the next day.
    assert_eq!(
        first_run(day + 8 * HOUR, 23, 30, &Interval { microseconds: -5 * HOUR }),
        Some(day + DAY + 4 * HOUR + 30 * MINUTE)
    );
    // Exactly now is not past.
    assert_eq!(first_run(day + 8 * HOUR, 8, 0, &Interval { microseconds: 0 }), Some(day + 8 * HOUR));
    // Before the epoch the day still starts at midnight.
    assert_eq!(first_run(-DAY + HOUR, 2, 0, &Interval { microseconds: 0 }), Some(-DAY + 2 * HOUR));
    assert_eq!(first_run(i64::MAX - 1, 23, 59, &Interval { microseconds: 0 }), None);
}

#[test]
fn deleting_tasks() {
    assert_eq!(delete_check(None, 7, Some(1), 1), DeleteCheck::Unknown);
    assert_eq!(delete_check(Some(8), 7, Some(1), 1), DeleteCheck::Unknown);
    assert_eq!(delete_check(Some(7), 7, Some(1), 2), DeleteCheck::NotOwner);
    assert_eq!(delete_check(Some(7), 7, Some(1), 1), DeleteCheck::Allowed);
    assert_eq!(delete_check(Some(7), 7, None, 2), DeleteCheck::Allowed);
}

#[test]
fn reminder_texts() {
    let s = schedule();
    assert_eq!(
        delivery_message(&s, ":wag:"),
        "Reminder pup paws at you <@42>:wag:\nIt's time for you to **drink water\n**Please react once you've drunk water"
    );
    assert_eq!(
        escalation_message(&s),
        "<@42>it's been an hour and you havn't**drunk water\n**This makes puppy sad\n please drink water"
    );
    assert_eq!(
        praise_message(&s, 43),
        "YAY <@43> you've drunk water!!\nYou've been such a good pup I'll give you a treat!!!"
    );
    assert_eq!(
        fallback_message(12345678901234567),
        "Puppy's memory can only rember the latest reminder<@12345678901234567>\n please react to the latest reminder so puppy can remember it"
    );
}
