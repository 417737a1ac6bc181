//! The replies the command framework sends outside any command: the prefix,
//! when the bot is mentioned alone, and the notice to a rate-limited user.

use vstd::prelude::*;
use crate::text::{push_i64, signed_decimal};

verus! {

/// The reply that names the command prefix.
pub open spec fn prefix_text(prefix: Seq<char>) -> Seq<char> {
    "The prefix is `"@ + prefix + "`"@
}

/// The notice to a user who must wait `seconds` before the command runs again.
pub open spec fn ratelimit_text(seconds: int) -> Seq<char> {
    "Try this again in "@ + signed_decimal(seconds) + " seconds."@
}

/// Whether a message that holds only mentions asks for the prefix: its first
/// mentioned user is the bot.
pub fn addresses_bot(first_mention: Option<u64>, bot_id: u64) -> (r: bool)
    ensures
        r == (first_mention == Some(bot_id)),
{
    match first_mention {
        Some(user) => user == bot_id,
        None => false,
    }
}

/// The reply that names the command prefix.
pub fn prefix_reply(prefix: &str) -> (r: String)
    ensures
        r@ == prefix_text(prefix@),
{
    let mut t = String::new();
    t.append("The prefix is `");
    t.append(prefix);
    t.append("`");
    t
}

/// The notice sent when a command is refused for `seconds` more seconds.
pub fn ratelimit_reply(seconds: i64) -> (r: String)
    ensures
        r@ == ratelimit_text(seconds as int),
{
    let mut t = String::new();
    t.append("Try this again in ");
    push_i64(&mut t, seconds);
    t.append(" seconds.");
    t
}

} // verus!
