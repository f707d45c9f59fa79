use poise::serenity_prelude::{Mentionable, UserId};
use vstd::prelude::*;
use vstd::string::StringExecFns;

use crate::model::Schedule;
use crate::util::decimal;

verus! {

/// How a user is mentioned in a message: `<@`, the user's id, `>`.
pub open spec fn mention_text(user: u64) -> Seq<char> {
    "<@"@ + decimal(user as nat) + ">"@
}

/// Relies on serenity's `UserId::new` and the `Display` of the `Mention`
/// that `Mentionable::mention` gives for it, which writes `<@{id}>`.
/// `UserId::new` panics on zero.
#[verifier::external_body]
fn user_mention(user: u64) -> (r: String)
    requires
        user != 0,
    ensures
        r@ == mention_text(user),
{
    UserId::new(user).mention().to_string()
}

/// The reminder for a due task: it mentions the user, shows the task in
/// bold and asks for a reaction once it is done.
pub open spec fn delivery_text(s: Schedule, tailwag: Seq<char>) -> Seq<char> {
    "Reminder pup paws at you "@ + mention_text(s.user_id as u64) + tailwag + "\n"@
        + "It's time for you to "@ + "**"@ + s.task@ + "\n"@ + "**"@ + "Please react once you've "@
        + s.task_secondary@
}

/// The escalation of a reminder nobody answered within the hour.
pub open spec fn escalation_text(s: Schedule) -> Seq<char> {
    mention_text(s.user_id as u64) + "it's been an hour and you havn't"@ + "**"@ + s.task_secondary@
        + "\n"@ + "**"@ + "This makes puppy sad\n please "@ + s.task@
}

/// The answer to `user` who acknowledged the reminder for `s`, with the
/// praise that the reminder holds.
pub open spec fn praise_text(s: Schedule, user: u64) -> Seq<char> {
    "YAY "@ + mention_text(user) + " you've "@ + s.task_secondary@ + "!!\n"@ + "You've been such a "@
        + s.praise_name@ + " I'll give you "@ + s.praise@ + "!!!"@
}

/// The answer to `user` who reacted to a reminder that is not tracked.
pub open spec fn fallback_text(user: u64) -> Seq<char> {
    "Puppy's memory can only rember the latest reminder"@ + mention_text(user)
        + "\n please react to the latest reminder so puppy can remember it"@
}

/// The text of the reminder for `schedule` (see `delivery_text`).
pub fn delivery_message(schedule: &Schedule, tailwag: &str) -> (r: String)
    requires
        schedule.user_id > 0,
    ensures
        r@ == delivery_text(*schedule, tailwag@),
{
    let mut s = String::new();
    s.append("Reminder pup paws at you ");
    s.append(user_mention(schedule.user_id as u64).as_str());
    s.append(tailwag);
    s.append("\n");
    s.append("It's time for you to ");
    s.append("**");
    s.append(schedule.task.as_str());
    s.append("\n");
    s.append("**");
    s.append("Please react once you've ");
    s.append(schedule.task_secondary.as_str());
    s
}

/// The text of the escalation for `schedule` (see `escalation_text`).
pub fn escalation_message(schedule: &Schedule) -> (r: String)
    requires
        schedule.user_id > 0,
    ensures
        r@ == escalation_text(*schedule),
{
    let mut s = user_mention(schedule.user_id as u64);
    s.append("it's been an hour and you havn't");
    s.append("**");
    s.append(schedule.task_secondary.as_str());
    s.append("\n");
    s.append("**");
    s.append("This makes puppy sad\n please ");
    s.append(schedule.task.as_str());
    s
}

/// The text of the answer to an acknowledgement (see `praise_text`).
pub fn praise_message(schedule: &Schedule, user: u64) -> (r: String)
    requires
        user != 0,
    ensures
        r@ == praise_text(*schedule, user),
{
    let mut s = String::new();
    s.append("YAY ");
    s.append(user_mention(user).as_str());
    s.append(" you've ");
    s.append(schedule.task_secondary.as_str());
    s.append("!!\n");
    s.append("You've been such a ");
    s.append(schedule.praise_name.as_str());
    s.append(" I'll give you ");
    s.append(schedule.praise.as_str());
    s.append("!!!");
    s
}

/// The text of the answer to a reaction to an untracked message (see
/// `fallback_text`).
pub fn fallback_message(user: u64) -> (r: String)
    requires
        user != 0,
    ensures
        r@ == fallback_text(user),
{
    let mut s = String::new();
    s.append("Puppy's memory can only rember the latest reminder");
    s.append(user_mention(user).as_str());
    s.append("\n please react to the latest reminder so puppy can remember it");
    s
}

} // verus!
