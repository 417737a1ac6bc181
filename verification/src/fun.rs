//! The `choose` command: picks one of the comma-separated options at random.

use vstd::prelude::*;
use rand::seq::SliceRandom;

verus! {

/// One element of `options` picked by `SliceRandom::choose` with the thread's
/// random generator. rand documents that it returns `None` exactly for an
/// empty slice and otherwise one of its elements; which one is left to chance.
#[verifier::external_body]
fn choose_random<'a>(options: &'a [String]) -> (r: Option<&'a String>)
    ensures
        options@.len() == 0 <==> r is None,
        r matches Some(c) ==> options@.contains(*c),
{
    options.choose(&mut rand::thread_rng())
}

/// The refusal when fewer than two options are given.
pub open spec fn too_few_choices_text() -> Seq<char> {
    "Provide 2 or more choices, separated by commas."@
}

/// The reply naming the chosen option.
pub open spec fn choice_text(choice: Seq<char>) -> Seq<char> {
    "I think you should go with "@ + choice
}

/// The reply naming `choice`.
pub fn choice_reply(choice: &str) -> (r: String)
    ensures
        r@ == choice_text(choice@),
{
    let mut m = String::new();
    m.append("I think you should go with ");
    m.append(choice);
    m
}

/// Answers `choose` for the given options: an error with fewer than two,
/// otherwise the reply naming one of them, picked at random.
pub fn choose_reply(options: &[String]) -> (r: Result<String, String>)
    ensures
        options@.len() <= 1 <==> r is Err,
        r matches Err(e) ==> e@ == too_few_choices_text(),
        r matches Ok(m) ==> exists|i: int| 0 <= i < options@.len() && m@ == choice_text(#[trigger] options@[i]@),
{
    if options.len() <= 1 {
        let mut e = String::new();
        e.append("Provide 2 or more choices, separated by commas.");
        return Err(e);
    }
    match choose_random(options) {
        Some(c) => {
            let m = choice_reply(c.as_str());
            let ghost i = options@.index_of(*c);
            assert(options@[i] == *c);
            Ok(m)
        },
        None => {
            let mut e = String::new();
            e.append("Provide 2 or more choices, separated by commas.");
            Err(e)
        },
    }
}

} // verus!
