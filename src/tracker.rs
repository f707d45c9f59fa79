use std::collections::HashMap;
use vstd::prelude::*;
use vstd::std_specs::iter::IteratorSpec;

use crate::model::Schedule;

verus! {

/// A reminder that was delivered and waits for an acknowledgement.
///
/// It keeps the task as it was when the reminder went out, so that the
/// answer to an acknowledgement needs nothing fetched again.
#[derive(Clone, Debug)]
pub struct Message {
    /// The identity of the delivered message.
    pub message: u64,
    /// When the message was delivered.
    pub datetime: i64,
    pub guild: i64,
    pub channel: i64,
    /// The task, as it stood at delivery.
    pub schedule: Schedule,
    /// Whether this reminder has already been escalated once.
    pub escalated: bool,
}

impl Message {
    /// A copy of this reminder, equal to it field by field.
    pub fn duplicate(&self) -> (r: Message)
        ensures
            r == *self,
    {
        Message {
            message: self.message,
            datetime: self.datetime,
            guild: self.guild,
            channel: self.channel,
            schedule: self.schedule.duplicate(),
            escalated: self.escalated,
        }
    }
}

/// Every entry is stored under the identity of its own message.
pub open spec fn keyed_by_message(m: Map<u64, Message>) -> bool {
    forall|k: u64| #[trigger] m.contains_key(k) ==> m[k].message == k
}

/// No two entries belong to the same task.
pub open spec fn one_per_task(m: Map<u64, Message>) -> bool {
    forall|a: u64, b: u64|
        #![trigger m[a], m[b]]
        m.contains_key(a) && m.contains_key(b) && m[a].schedule.id == m[b].schedule.id ==> a == b
}

/// Whether some entry belongs to `task`.
pub open spec fn tracks_task(m: Map<u64, Message>, task: i64) -> bool {
    exists|k: u64| #[trigger] m.contains_key(k) && m[k].schedule.id == task
}

/// The entries that do not belong to `task`.
pub open spec fn without_task(m: Map<u64, Message>, task: i64) -> Map<u64, Message> {
    Map::new(|k: u64| m.contains_key(k) && m[k].schedule.id != task, |k: u64| m[k])
}

/// The tracker after `r` is put into it: whatever was tracked for the same
/// task is evicted, and `r` is stored under its message.
pub open spec fn put_spec(m: Map<u64, Message>, r: Message) -> Map<u64, Message> {
    without_task(m, r.schedule.id).insert(r.message, r)
}

/// Putting a reminder keeps at most one entry per task, however often it is
/// done for the same task: afterwards the only entry for the reminder's task
/// is the reminder itself, under its own message.
pub proof fn lemma_put_keeps_one_per_task(m: Map<u64, Message>, r: Message)
    requires
        keyed_by_message(m),
        one_per_task(m),
    ensures
        keyed_by_message(put_spec(m, r)),
        one_per_task(put_spec(m, r)),
        put_spec(m, r).contains_key(r.message),
        put_spec(m, r)[r.message] == r,
        forall|k: u64| #[trigger]
            put_spec(m, r).contains_key(k) && put_spec(m, r)[k].schedule.id == r.schedule.id ==> k
                == r.message,
{
    let after = put_spec(m, r);
    assert forall|a: u64, b: u64|
        after.contains_key(a) && after.contains_key(b) && #[trigger] after[a].schedule.id
            == #[trigger] after[b].schedule.id implies a == b by {
        if a != r.message && b != r.message {
            assert(m.contains_key(a) && m.contains_key(b));
        }
    }
}

/// The reminders that are waiting for an acknowledgement, found both by the
/// message that was delivered and by the task they belong to.
pub struct ReminderTracker {
    messages: HashMap<u64, Message>,
    by_task: HashMap<i64, u64>,
}

impl View for ReminderTracker {
    type V = Map<u64, Message>;

    closed spec fn view(&self) -> Map<u64, Message> {
        self.messages@
    }
}

impl ReminderTracker {
    /// The two indices agree: each entry is under its own message, and the
    /// task index points at exactly the entries there are.
    pub closed spec fn wf(&self) -> bool {
        &&& keyed_by_message(self.messages@)
        &&& forall|k: u64| #[trigger]
            self.messages@.contains_key(k) ==> self.by_task@.contains_key(
                self.messages@[k].schedule.id,
            ) && self.by_task@[self.messages@[k].schedule.id] == k
        &&& forall|t: i64| #[trigger]
            self.by_task@.contains_key(t) ==> self.messages@.contains_key(self.by_task@[t])
                && self.messages@[self.by_task@[t]].schedule.id == t
    }

    /// A well-formed tracker holds at most one entry per task, each under
    /// its own message.
    pub proof fn lemma_wf(&self)
        requires
            self.wf(),
        ensures
            keyed_by_message(self@),
            one_per_task(self@),
    {
    }

    /// An empty tracker.
    pub fn new() -> (r: ReminderTracker)
        ensures
            r.wf(),
            r@ == Map::<u64, Message>::empty(),
    {
        ReminderTracker { messages: HashMap::new(), by_task: HashMap::new() }
    }

    /// The number of reminders tracked.
    pub fn len(&self) -> (r: usize)
        requires
            self.wf(),
        ensures
            r == self@.len(),
    {
        self.messages.len()
    }

    /// The reminder delivered as `message`, if it is tracked.
    pub fn get(&self, message: u64) -> (r: Option<&Message>)
        requires
            self.wf(),
        ensures
            match r {
                Some(e) => self@.contains_key(message) && *e == self@[message],
                None => !self@.contains_key(message),
            },
    {
        self.messages.get(&message)
    }

    /// The message of the reminder tracked for `task`, if there is one.
    pub fn message_for_task(&self, task: i64) -> (r: Option<u64>)
        requires
            self.wf(),
        ensures
            match r {
                Some(k) => self@.contains_key(k) && self@[k].schedule.id == task,
                None => !tracks_task(self@, task),
            },
    {
        match self.by_task.get(&task) {
            Some(k) => Some(*k),
            None => None,
        }
    }

    /// Stops tracking the reminder delivered as `message`, and returns it.
    pub fn remove(&mut self, message: u64) -> (r: Option<Message>)
        requires
            old(self).wf(),
        ensures
            final(self).wf(),
            final(self)@ == old(self)@.remove(message),
            match r {
                Some(e) => old(self)@.contains_key(message) && e == old(self)@[message],
                None => !old(self)@.contains_key(message),
            },
    {
        let r = self.messages.remove(&message);
        match &r {
            Some(e) => {
                self.by_task.remove(&e.schedule.id);
            },
            None => {},
        }
        r
    }

    /// Tracks `reminder`, evicting first whatever was tracked for the same
    /// task, so that the task never has two reminders outstanding.
    pub fn put(&mut self, reminder: Message)
        requires
            old(self).wf(),
        ensures
            final(self).wf(),
            final(self)@ == put_spec(old(self)@, reminder),
    {
        let ghost m0 = self.messages@;
        let task = reminder.schedule.id;
        let key = reminder.message;
        match self.by_task.remove(&task) {
            Some(k) => {
                self.messages.remove(&k);
            },
            None => {},
        }
        match self.messages.remove(&key) {
            Some(e) => {
                self.by_task.remove(&e.schedule.id);
            },
            None => {},
        }
        self.messages.insert(key, reminder);
        self.by_task.insert(task, key);
        assert(self.messages@ =~= put_spec(m0, reminder));
    }
    /// A copy of every tracked reminder, taken at one moment, in no
    /// particular order: each entry appears exactly once.
    pub fn snapshot(&self) -> (r: Vec<Message>)
        requires
            self.wf(),
        ensures
            r.len() == self@.len(),
            forall|i: int|
                0 <= i < r.len() ==> self@.contains_key(#[trigger] r[i].message) && self@[r[i].message]
                    == r[i],
            forall|k: u64| #[trigger]
                self@.contains_key(k) ==> exists|i: int| 0 <= i < r.len() && r[i] == self@[k],
            forall|i: int, j: int|
                0 <= i < r.len() && 0 <= j < r.len() && i != j ==> r[i].message != r[j].message,
    {
        let mut out: Vec<Message> = Vec::new();
        let iter = self.messages.iter();
        assert(iter.remaining().no_duplicates());
        for (k, v) in it: iter
            invariant
                self.wf(),
                it.seq() == vstd::std_specs::hash::spec_hash_map_iter(&self.messages).remaining(),
                out.len() == it.index(),
                forall|i: int| 0 <= i < it.index() ==> out[i] == *it.seq()[i].1,
        {
            out.push(v.duplicate());
        }
        proof {
            let s = vstd::std_specs::hash::spec_hash_map_iter(&self.messages).remaining();
            vstd::std_specs::hash::axiom_spec_hash_map_iter(&self.messages);
            assert forall|i: int| 0 <= i < out.len() implies self@.contains_key(
                #[trigger] out[i].message,
            ) && self@[out[i].message] == out[i] by {
                assert(self.messages@.contains_key(*s[i].0));
            }
            assert forall|k: u64| #[trigger]
                self@.contains_key(k) implies exists|i: int|
                0 <= i < out.len() && out[i] == self@[k] by {
                assert(s.contains((&k, &self.messages@[k])));
                let j = choose|j: int| 0 <= j < s.len() && s[j] == (&k, &self.messages@[k]);
                assert(out[j] == self@[k]);
            }
            assert forall|i: int, j: int|
                0 <= i < out.len() && 0 <= j < out.len() && i != j implies out[i].message
                != out[j].message by {
                if out[i].message == out[j].message {
                    assert(self.messages@.contains_key(*s[i].0));
                    assert(self.messages@.contains_key(*s[j].0));
                    assert(*s[i].0 == *s[j].0);
                    assert(*s[i].1 == *s[j].1);
                    assert(s[i] == s[j]);
                }
            }
        }
        out
    }
}

} // verus!
