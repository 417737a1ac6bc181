//! Localised bot replies: one `Language` table per locale, whose templates may
//! hold `{name}` placeholders that the accessor methods fill in.

use vstd::prelude::*;
use crate::text::{lacks, lemma_replace_without_pattern, replace, replace_all};

verus! {

/// The reply templates of one locale.
pub struct Language {
    pub ping: &'static str,
    pub about: &'static str,
    pub pong: &'static str,
}

impl Language {
    /// The `ping` reply, verbatim.
    pub fn ping(&self) -> (r: String)
        ensures
            r@ == self.ping@,
    {
        self.ping.to_owned()
    }

    /// The `about` reply, verbatim.
    pub fn about(&self) -> (r: String)
        ensures
            r@ == self.about@,
    {
        self.about.to_owned()
    }

    /// The `pong` reply with every `{latency}` placeholder replaced by `latency`.
    pub fn pong(&self, latency: &str) -> (r: String)
        ensures
            r@ == replace_all(self.pong@, "{latency}"@, latency@),
    {
        proof {
            reveal_strlit("{latency}");
        }
        replace(self.pong, "{latency}", latency)
    }
}

/// A `pong` template without a `{latency}` placeholder is answered verbatim,
/// whatever the latency.
pub proof fn lemma_pong_without_placeholder(template: Seq<char>, latency: Seq<char>)
    requires
        lacks(template, "{latency}"@),
    ensures
        replace_all(template, "{latency}"@, latency) == template,
{
    reveal_strlit("{latency}");
    lemma_replace_without_pattern(template, "{latency}"@, latency);
}

} // verus!
