use vstd::prelude::*;

use crate::poller::Delivery;
use crate::tracker::{
    keyed_by_message, lemma_put_keeps_one_per_task, one_per_task, put_spec, Message, ReminderTracker,
};

verus! {

/// How long a reminder may wait for an acknowledgement before it is
/// escalated: sixty minutes, in microseconds.
pub const ESCALATE_AFTER: i64 = 3_600_000_000;

/// The reminder is waiting longer than `ESCALATE_AFTER` at `now` and was not
/// escalated yet.
pub open spec fn escalation_due(r: Message, now: i64) -> bool {
    &&& !r.escalated
    &&& now - r.datetime > ESCALATE_AFTER
}

/// The reminder that replaces `r` once its escalation went out as `message`
/// at `now`: same task and destination, escalated.
pub open spec fn escalated(r: Message, message: u64, now: i64) -> Message {
    Message { message, datetime: now, escalated: true, ..r }
}

/// The tracker after the escalation of the reminder delivered as `message`
/// had `outcome` at `now`. Only a tracked reminder that was not escalated
/// yet is replaced, and only once the escalation was sent.
pub open spec fn escalation_result(
    m: Map<u64, Message>,
    message: u64,
    outcome: Delivery,
    now: i64,
) -> Map<u64, Message> {
    match outcome {
        Delivery::Sent(n) => if m.contains_key(message) && !m[message].escalated {
            put_spec(m, escalated(m[message], n, now))
        } else {
            m
        },
        _ => m,
    }
}

/// What to do with an overdue reminder once its acknowledgements are counted.
#[derive(Clone, Copy, Debug, PartialEq, Eq, Structural)]
pub enum Overdue {
    /// It was acknowledged after all; it is no longer tracked.
    Acknowledged,
    /// Nobody answered: send the escalation.
    Escalate,
}

impl Message {
    /// Whether this reminder is due for escalation at `now`.
    pub fn needs_escalation(&self, now: i64) -> (r: bool)
        ensures
            r == escalation_due(*self, now),
    {
        !self.escalated && (now as i128) - (self.datetime as i128) > ESCALATE_AFTER as i128
    }
}

/// The reminders of a snapshot that are due for escalation at `now`, in
/// their order.
pub fn escalation_candidates(snapshot: &Vec<Message>, now: i64) -> (r: Vec<Message>)
    ensures
        r@ == snapshot@.filter(|m: Message| escalation_due(m, now)),
{
    let mut out: Vec<Message> = Vec::new();
    let mut i: usize = 0;
    while i < snapshot.len()
        invariant
            i <= snapshot.len(),
            out@ == snapshot@.take(i as int).filter(|m: Message| escalation_due(m, now)),
        decreases snapshot.len() - i,
    {
        assert(snapshot@.take(i as int + 1).drop_last() =~= snapshot@.take(i as int));
        proof {
            reveal_with_fuel(Seq::filter, 1);
        }
        if snapshot[i].needs_escalation(now) {
            out.push(snapshot[i].duplicate());
        }
        i = i + 1;
    }
    assert(snapshot@.take(snapshot.len() as int) =~= snapshot@);
    out
}

/// Settles an overdue reminder from the number of acknowledgements found on
/// its message: any at all count as an acknowledgement, and the reminder is
/// no longer tracked; with none, it is to be escalated and stays as it is.
pub fn on_acknowledgement_count(tracker: &mut ReminderTracker, message: u64, count: u64) -> (r:
    Overdue)
    requires
        old(tracker).wf(),
    ensures
        final(tracker).wf(),
        count > 0 ==> r == Overdue::Acknowledged && final(tracker)@ == old(tracker)@.remove(
            message,
        ),
        count == 0 ==> r == Overdue::Escalate && final(tracker)@ == old(tracker)@,
{
    if count > 0 {
        tracker.remove(message);
        Overdue::Acknowledged
    } else {
        Overdue::Escalate
    }
}

/// Records the outcome of escalating the reminder delivered as `message`.
///
/// Once the escalation was sent, the reminder is replaced by one for the new
/// message, delivered `now` and marked escalated. A reminder that is no
/// longer tracked, or was escalated already, is left as it is, and so is
/// everything when the escalation could not be sent. Returns whether the
/// reminder was replaced.
pub fn on_escalation(tracker: &mut ReminderTracker, message: u64, outcome: Delivery, now: i64) -> (r:
    bool)
    requires
        old(tracker).wf(),
    ensures
        final(tracker).wf(),
        final(tracker)@ == escalation_result(old(tracker)@, message, outcome, now),
        r == (outcome is Sent && old(tracker)@.contains_key(message)
            && !old(tracker)@[message].escalated),
{
    match outcome {
        Delivery::Sent(n) => {
            let replacement = match tracker.get(message) {
                Some(e) => {
                    if e.escalated {
                        None
                    } else {
                        Some(
                            Message {
                                message: n,
                                datetime: now,
                                guild: e.guild,
                                channel: e.channel,
                                schedule: e.schedule.duplicate(),
                                escalated: true,
                            },
                        )
                    }
                },
                None => None,
            };
            match replacement {
                Some(e) => {
                    tracker.put(e);
                    true
                },
                None => false,
            }
        },
        _ => false,
    }
}

/// Escalation happens at most once per tracked reminder: once escalated,
/// the reminder is never due for escalation again, and no later escalation
/// outcome changes the tracker, until a new delivery supersedes it or it is
/// acknowledged.
pub proof fn lemma_escalation_is_one_shot(
    m: Map<u64, Message>,
    message: u64,
    sent: u64,
    now: i64,
    later: Delivery,
    then: i64,
)
    requires
        keyed_by_message(m),
        one_per_task(m),
        m.contains_key(message),
        !m[message].escalated,
    ensures
        ({
            let m1 = escalation_result(m, message, Delivery::Sent(sent), now);
            &&& m1.contains_key(sent)
            &&& m1[sent].escalated
            &&& m1[sent].schedule == m[message].schedule
            &&& !escalation_due(m1[sent], then)
            &&& forall|k: u64| #[trigger]
                m1.contains_key(k) && m1[k].schedule.id == m[message].schedule.id ==> k == sent
            &&& escalation_result(m1, sent, later, then) == m1
        }),
{
    lemma_put_keeps_one_per_task(m, escalated(m[message], sent, now));
}

} // verus!
