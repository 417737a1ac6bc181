//! The `lockdown` command: toggles whether the guild's everyone-role may send
//! messages in a channel, announcing the change before and after.

use vstd::prelude::*;

verus! {

/// What `lockdown` does to a channel.
pub struct LockdownPlan {
    /// Whether the overwrite denies sending messages (otherwise it allows it).
    pub deny_send_messages: bool,
    /// The message sent before the permission changes.
    pub patience: String,
    /// The message sent once the permission changed.
    pub response: String,
}

pub open spec fn patience_text(channel_is_locked: bool, name: Seq<char>) -> Seq<char> {
    if channel_is_locked {
        "Locking the channel "@ + name + "..."@
    } else {
        "Unlocking the channel "@ + name + "..."@
    }
}

pub open spec fn response_text(channel_is_locked: bool, name: Seq<char>) -> Seq<char> {
    if channel_is_locked {
        "The lockdown for the channel "@ + name + " has been released."@
    } else {
        "The channel "@ + name + " is now locked."@
    }
}

/// The plan for the channel named `channel_name`: a locked channel gets
/// sending allowed again, an open one gets it denied.
pub fn lockdown_plan(channel_is_locked: bool, channel_name: &str) -> (p: LockdownPlan)
    ensures
        p.deny_send_messages == !channel_is_locked,
        p.patience@ == patience_text(channel_is_locked, channel_name@),
        p.response@ == response_text(channel_is_locked, channel_name@),
{
    let mut patience = String::new();
    let mut response = String::new();
    if channel_is_locked {
        patience.append("Locking the channel ");
        patience.append(channel_name);
        patience.append("...");
        response.append("The lockdown for the channel ");
        response.append(channel_name);
        response.append(" has been released.");
    } else {
        patience.append("Unlocking the channel ");
        patience.append(channel_name);
        patience.append("...");
        response.append("The channel ");
        response.append(channel_name);
        response.append(" is now locked.");
    }
    LockdownPlan { deny_send_messages: !channel_is_locked, patience, response }
}

} // verus!
