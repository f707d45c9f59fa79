use vstd::prelude::*;

use crate::model::Schedule;
use crate::tracker::{
    keyed_by_message, lemma_put_keeps_one_per_task, one_per_task, put_spec, Message, ReminderTracker,
};

verus! {

/// What came of delivering the reminder for one due task.
#[derive(Clone, Copy, Debug, PartialEq, Eq, Structural)]
pub enum Delivery {
    /// The destination channel could not be resolved.
    ChannelMissing,
    /// The message could not be sent.
    SendFailed,
    /// The message was sent under this identity.
    Sent(u64),
}

/// What the poller does next with the task.
#[derive(Clone, Copy, Debug, PartialEq, Eq, Structural)]
pub enum PollAction {
    /// Leave the task as it is: it stays due and is retried on the next tick.
    Skip,
    /// Move the task's next run to `next_run`.
    Advance { task: i64, next_run: i64 },
}

/// The reminder tracked when the reminder for `s` went out as `message` at
/// `now`: not yet escalated.
pub open spec fn delivered(s: Schedule, message: u64, now: i64) -> Message {
    Message {
        message,
        datetime: now,
        guild: s.guild_id,
        channel: s.channel_id,
        schedule: s,
        escalated: false,
    }
}

/// The tasks of `tasks` that are due at `now`, in their order.
pub fn due_tasks(tasks: &Vec<Schedule>, now: i64) -> (r: Vec<Schedule>)
    ensures
        r@ == tasks@.filter(|s: Schedule| s.due_at(now)),
{
    let mut out: Vec<Schedule> = Vec::new();
    let mut i: usize = 0;
    while i < tasks.len()
        invariant
            i <= tasks.len(),
            out@ == tasks@.take(i as int).filter(|s: Schedule| s.due_at(now)),
        decreases tasks.len() - i,
    {
        assert(tasks@.take(i as int + 1).drop_last() =~= tasks@.take(i as int));
        proof {
            reveal_with_fuel(Seq::filter, 1);
        }
        if tasks[i].is_due(now) {
            out.push(tasks[i].duplicate());
        }
        i = i + 1;
    }
    assert(tasks@.take(tasks.len() as int) =~= tasks@);
    out
}

/// Records the outcome of delivering the reminder for `schedule` at `now`.
///
/// Once the message was sent, the reminder is tracked (evicting any earlier
/// one for the same task) and then the task is advanced by one interval.
/// Otherwise nothing changes, and the task stays due.
pub fn on_delivery(
    tracker: &mut ReminderTracker,
    schedule: &Schedule,
    outcome: Delivery,
    now: i64,
) -> (r: PollAction)
    requires
        old(tracker).wf(),
        schedule.valid(),
    ensures
        final(tracker).wf(),
        match outcome {
            Delivery::Sent(m) => {
                &&& final(tracker)@ == put_spec(old(tracker)@, delivered(*schedule, m, now))
                &&& r == PollAction::Advance {
                    task: schedule.id,
                    next_run: schedule.next_occurrence() as i64,
                }
            },
            _ => final(tracker)@ == old(tracker)@ && r == PollAction::Skip,
        },
{
    match outcome {
        Delivery::Sent(m) => {
            let reminder = Message {
                message: m,
                datetime: now,
                guild: schedule.guild_id,
                channel: schedule.channel_id,
                schedule: schedule.duplicate(),
                escalated: false,
            };
            tracker.put(reminder);
            PollAction::Advance {
                task: schedule.id,
                next_run: schedule.next_run + schedule.interval.microseconds,
            }
        },
        _ => PollAction::Skip,
    }
}

/// A due task whose reminder went out: afterwards the tracker holds exactly
/// one reminder for the task, the one just sent, and the task's next run
/// moves forward by exactly one interval, which is never zero.
pub proof fn lemma_delivery_tracks_once_and_advances_once(
    m: Map<u64, Message>,
    s: Schedule,
    message: u64,
    now: i64,
)
    requires
        keyed_by_message(m),
        one_per_task(m),
        s.valid(),
        s.due_at(now),
    ensures
        ({
            let after = put_spec(m, delivered(s, message, now));
            &&& after.contains_key(message)
            &&& after[message] == delivered(s, message, now)
            &&& forall|k: u64| #[trigger]
                after.contains_key(k) && after[k].schedule.id == s.id ==> k == message
            &&& keyed_by_message(after)
            &&& one_per_task(after)
        }),
        s.next_occurrence() - s.next_run == s.interval.microseconds,
        s.next_occurrence() > s.next_run,
{
    lemma_put_keeps_one_per_task(m, delivered(s, message, now));
}

} // verus!
