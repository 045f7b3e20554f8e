//! Whitespace trimming, shared by the locator and the status reporter.

use vstd::prelude::*;

verus! {

/// What std's `str::trim` returns for a text: the same text without its
/// leading and trailing whitespace.
pub uninterp spec fn trimmed(s: Seq<char>) -> Seq<char>;

/// Relies on str::trim: the input without leading or trailing whitespace, a
/// function of the characters alone.  It never grows the text, and an empty
/// input stays empty.
#[verifier::external_body]
pub fn trim_to_string(s: &str) -> (r: String)
    ensures
        r@ == trimmed(s@),
        r@.len() <= s@.len(),
        s@.len() == 0 ==> r@.len() == 0,
{
    s.trim().to_string()
}

} // verus!
