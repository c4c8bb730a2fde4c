//! Regular-expression matching through the `regex` crate.
use vstd::prelude::*;

verus! {

/// Whether `regex::Regex::new` accepts `pattern`.
pub uninterp spec fn regex_compiles(pattern: Seq<char>) -> bool;

/// What `Regex::is_match` answers for the regex compiled from `pattern` on `input`.
pub uninterp spec fn regex_is_match(pattern: Seq<char>, input: Seq<char>) -> bool;

/// Compiles `pattern` with `regex::Regex::new` and, when that succeeds, asks
/// `Regex::is_match` whether it matches anywhere in `input`.
/// Trusted: `None` exactly when the pattern does not compile (named by
/// `regex_compiles`), otherwise the match answer, named by `regex_is_match`;
/// nothing is claimed about which inputs a given pattern matches.
#[verifier::external_body]
pub(crate) fn regex_search(pattern: &str, input: &str) -> (r: Option<bool>)
    ensures
        r == (if regex_compiles(pattern@) {
            Some(regex_is_match(pattern@, input@))
        } else {
            None::<bool>
        }),
{
    match regex::Regex::new(pattern) {
        Ok(re) => Some(re.is_match(input)),
        Err(_) => None,
    }
}

/// `pattern` compiles and matches somewhere in `input`.
pub open spec fn regex_hits(pattern: Seq<char>, input: Seq<char>) -> bool {
    regex_compiles(pattern) && regex_is_match(pattern, input)
}

/// Whether `pattern` compiles and matches `input`; a pattern that does not
/// compile matches nothing.
pub fn regex_hit(pattern: &str, input: &str) -> (r: bool)
    ensures
        r == regex_hits(pattern@, input@),
{
    match regex_search(pattern, input) {
        Some(b) => b,
        None => false,
    }
}

} // verus!
