//! Replies of the social commands (`daily`, `credits`, `profile`).

use vstd::prelude::*;
use crate::text::{decimal, push_char, push_u64};

verus! {

/// The emoji the social commands show next to amounts of money.
pub open spec fn shiny() -> Seq<char> {
    "<:shiny:612364146792726539>"@
}

/// The `daily` reply: the grant message, or the reason the grant failed.
pub open spec fn daily_text(outcome: Result<(), Seq<char>>) -> Seq<char> {
    match outcome {
        Ok(()) => "Yay! You received 200 "@ + shiny() + "!"@,
        Err(e) => e,
    }
}

/// See `daily_text`.
pub fn daily_reply(outcome: &Result<(), String>) -> (r: String)
    ensures
        r@ == daily_text(match outcome {
            Ok(()) => Ok(()),
            Err(e) => Err(e@),
        }),
{
    match outcome {
        Ok(()) => {
            let mut r = String::new();
            r.append("Yay! You received 200 ");
            r.append("<:shiny:612364146792726539>");
            r.append("!");
            r
        },
        Err(e) => e.clone(),
    }
}

/// The `credits` reply for a balance of `amount`.
pub open spec fn credits_text(amount: u32) -> Seq<char> {
    "You have a total of "@ + decimal(amount as nat) + " "@ + shiny()
}

/// See `credits_text`.
pub fn credits_reply(amount: u32) -> (r: String)
    ensures
        r@ == credits_text(amount),
{
    let mut r = String::new();
    r.append("You have a total of ");
    push_u64(&mut r, amount as u64);
    r.append(" ");
    r.append("<:shiny:612364146792726539>");
    r
}

/// A bar of `len` cells whose first `filled` cells are full blocks and the rest spaces.
pub open spec fn bar_text(len: nat, filled: nat) -> Seq<char> {
    Seq::new(filled, |_i: int| '█') + Seq::new((len - filled) as nat, |_i: int| ' ')
}

/// A bar always spans its full width: `filled` blocks followed by the rest in spaces.
pub proof fn lemma_bar_width(len: nat, filled: nat)
    requires
        filled <= len,
    ensures
        bar_text(len, filled).len() == len,
        forall|i: int| 0 <= i < filled ==> #[trigger] bar_text(len, filled)[i] == '█',
        forall|i: int| filled <= i < len ==> #[trigger] bar_text(len, filled)[i] == ' ',
{
}

/// See `bar_text`.
pub fn progress_bar(len: usize, filled: usize) -> (r: String)
    requires
        filled <= len,
    ensures
        r@ == bar_text(len as nat, filled as nat),
{
    let mut r = String::new();
    let mut i: usize = 0;
    while i < len
        invariant
            filled <= len,
            i <= len,
            r@ == bar_text(len as nat, filled as nat).subrange(0, i as int),
        decreases len - i,
    {
        let c = if i < filled { '█' } else { ' ' };
        push_char(&mut r, c);
        i = i + 1;
        assert(r@ =~= bar_text(len as nat, filled as nat).subrange(0, i as int));
    }
    assert(bar_text(len as nat, filled as nat).subrange(0, len as int) =~= bar_text(len as nat, filled as nat));
    r
}

} // verus!
