use vstd::prelude::*;

verus! {

/// The error type of the `regex` crate, carried through unopened.
#[verifier::external_type_specification]
#[verifier::external_body]
pub struct ExRegexError(regex::Error);

/// Whether the `regex` crate accepts `pattern`: whether `Regex::new`
/// compiles it.
pub uninterp spec fn is_pattern(pattern: Seq<char>) -> bool;

/// What the expression compiled from `pattern` finds in `haystack`: the
/// texts of the successive non-overlapping matches that `Regex::find_iter`
/// yields, in the order in which they start.
pub uninterp spec fn matches_of(pattern: Seq<char>, haystack: Seq<char>) -> Seq<Seq<char>>;

/// Compiles `pattern` with `regex::Regex::new` and collects the text of every
/// match that `Regex::find_iter` reports in `haystack`. The contract claims
/// that the call fails exactly on the patterns that the crate refuses, and
/// that the matches are those that the crate computes from these two
/// arguments; nothing is proved about which substrings match.
#[verifier::external_body]
pub(crate) fn find_all(pattern: &str, haystack: &str) -> (found: Result<Vec<String>, regex::Error>)
    ensures
        found is Ok <==> is_pattern(pattern@),
        found matches Ok(texts) ==> texts.deep_view() == matches_of(pattern@, haystack@),
{
    let re = regex::Regex::new(pattern)?;
    Ok(re.find_iter(haystack).map(|m| m.as_str().to_owned()).collect())
}

} // verus!
