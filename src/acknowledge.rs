use vstd::prelude::*;

use crate::tracker::{keyed_by_message, one_per_task, tracks_task, Message, ReminderTracker};

verus! {

/// The answer to an acknowledgement.
#[derive(Clone, Debug)]
pub enum AckReply {
    /// The acknowledged reminder, no longer tracked: it is answered with the
    /// praise it holds.
    Acknowledged(Message),
    /// The message is not tracked (superseded, answered already, or never
    /// tracked): only the latest reminder of a task is remembered.
    Fallback,
}

/// Handles an acknowledgement of `message`.
///
/// A tracked reminder is removed and handed back for the reply; for any
/// other message the tracker is left as it is and the fallback notice is
/// due.
pub fn acknowledge(tracker: &mut ReminderTracker, message: u64) -> (r: AckReply)
    requires
        old(tracker).wf(),
    ensures
        final(tracker).wf(),
        old(tracker)@.contains_key(message) ==> {
            &&& final(tracker)@ == old(tracker)@.remove(message)
            &&& r == AckReply::Acknowledged(old(tracker)@[message])
            &&& !tracks_task(final(tracker)@, old(tracker)@[message].schedule.id)
        },
        !old(tracker)@.contains_key(message) ==> final(tracker)@ == old(tracker)@ && r
            == AckReply::Fallback,
{
    proof {
        tracker.lemma_wf();
    }
    match tracker.remove(message) {
        Some(e) => AckReply::Acknowledged(e),
        None => AckReply::Fallback,
    }
}

/// Handles a reaction to `message`, whose author is `author`. Only
/// reactions to this system's own messages (`own_id`) are acknowledgements;
/// any other is ignored, and then nothing changes.
pub fn on_reaction(tracker: &mut ReminderTracker, author: Option<u64>, own_id: u64, message: u64) -> (r:
    Option<AckReply>)
    requires
        old(tracker).wf(),
    ensures
        final(tracker).wf(),
        author != Some(own_id) ==> r is None && final(tracker)@ == old(tracker)@,
        author == Some(own_id) ==> {
            &&& r is Some
            &&& old(tracker)@.contains_key(message) ==> final(tracker)@ == old(tracker)@.remove(
                message,
            ) && r == Some(AckReply::Acknowledged(old(tracker)@[message]))
            &&& !old(tracker)@.contains_key(message) ==> final(tracker)@ == old(tracker)@ && r
                == Some(AckReply::Fallback)
        },
{
    match author {
        Some(a) => {
            if a == own_id {
                Some(acknowledge(tracker, message))
            } else {
                None
            }
        },
        None => None,
    }
}

} // verus!
