use vstd::prelude::*;

verus! {

/// A guild (server) and the channel in which its reminders are posted.
#[derive(Clone, Copy, Debug, PartialEq, Eq, Structural)]
pub struct Guild {
    pub id: i64,
    pub channel: i64,
}

/// A user's timezone offset.
#[derive(Clone, Copy, Debug, PartialEq, Eq, Structural)]
pub struct Timezone {
    timezone: i16,
}

/// A span of time, in microseconds.
#[derive(Clone, Copy, Debug, PartialEq, Eq, Structural)]
pub struct Interval {
    pub microseconds: i64,
}

/// A scheduled task joined with what a reminder for it needs: where it is
/// posted, who is reminded, and how they are praised.
#[derive(Clone, Debug)]
pub struct Schedule {
    pub id: i64,
    pub guild_id: i64,
    pub user_id: i64,
    pub channel_id: i64,
    pub task: String,
    pub task_secondary: String,
    pub praise: String,
    pub praise_name: String,
    pub interval: Interval,
    pub created: i64,
    pub next_run: i64,
}

impl Schedule {
    /// The task can be run and advanced: its interval is positive and one
    /// more interval after its next run is still a representable time.
    pub open spec fn valid(self) -> bool {
        &&& self.interval.microseconds > 0
        &&& self.next_run + self.interval.microseconds <= i64::MAX
    }

    /// The next run after this one: one interval later.
    pub open spec fn next_occurrence(self) -> int {
        self.next_run + self.interval.microseconds
    }

    /// Whether the task can be run and advanced (see `valid`).
    pub fn is_valid(&self) -> (r: bool)
        ensures
            r == self.valid(),
    {
        self.interval.microseconds > 0 && self.next_run <= i64::MAX - self.interval.microseconds
    }

    /// Whether the task is due at `now`: its next run is at or before it.
    pub open spec fn due_at(self, now: i64) -> bool {
        self.next_run <= now
    }

    /// Whether the task is due at `now` (see `due_at`).
    pub fn is_due(&self, now: i64) -> (r: bool)
        ensures
            r == self.due_at(now),
    {
        self.next_run <= now
    }

    /// A copy of this schedule, equal to it field by field.
    pub fn duplicate(&self) -> (r: Schedule)
        ensures
            r == *self,
    {
        Schedule {
            id: self.id,
            guild_id: self.guild_id,
            user_id: self.user_id,
            channel_id: self.channel_id,
            task: self.task.clone(),
            task_secondary: self.task_secondary.clone(),
            praise: self.praise.clone(),
            praise_name: self.praise_name.clone(),
            interval: self.interval,
            created: self.created,
            next_run: self.next_run,
        }
    }
}

} // verus!
