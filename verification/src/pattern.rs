//! Regular-expression matching, done by the `regex` crate.

use vstd::prelude::*;

verus! {

/// What capture group `group` holds in the leftmost match of the regular
/// expression `pattern` in `haystack`, as the `regex` crate finds it. `None`
/// where the crate refuses the pattern, where nothing matches, and where the
/// group is not in the pattern or took no part in the match. Group 0 is the
/// whole match.
pub uninterp spec fn regex_capture(pattern: Seq<char>, haystack: Seq<char>, group: nat) -> Option<
    Seq<char>,
>;

/// Compiles `pattern` with `regex::Regex::new`, searches `haystack` with
/// `Regex::captures` and hands out the text of group `group` from
/// `Captures::get` and `Match::as_str`.
///
/// Trusted: the result is [`regex_capture`] of the three arguments. The crate
/// compiles and searches without reading anything but its arguments, so equal
/// arguments give equal results.
#[verifier::external_body]
pub(crate) fn capture_group(pattern: &str, haystack: &str, group: usize) -> (found: Option<String>)
    ensures
        found.deep_view() == regex_capture(pattern@, haystack@, group as nat),
{
    let compiled = match regex::Regex::new(pattern) {
        Ok(compiled) => compiled,
        Err(_) => return None,
    };
    let captures = match compiled.captures(haystack) {
        Some(captures) => captures,
        None => return None,
    };
    match captures.get(group) {
        Some(found) => Some(found.as_str().to_string()),
        None => None,
    }
}

} // verus!
