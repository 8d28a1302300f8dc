use crate::error::ScrapeError;
use crate::pattern::{find_all, is_pattern, matches_of};
use crate::text::{
    chars_of, lemma_replaced_without_occurrence, occurs_at, replace_all, replaced, starts_at,
    string_of,
};
use vstd::prelude::*;

verus! {

/// The pattern of one reference to a detail page as it stands in the markup:
/// the address of the page with a `start_id` parameter, up to and including
/// the escaped `">` that closes it. After the question mark the address
/// holds no white space and no ampersand but an escaped one, so that no
/// match runs on past the end of a reference, and it is as short as it can
/// be, so that each reference on a line is a match of its own.
pub const REFERENCE: &'static str =
    "https:\\/\\/flightlog\\.org\\/fl\\.html\\?(?:[^&\\s]|&amp;)*?start_id=[0-9]+&quot;&gt;";

/// An ampersand as the markup escapes it.
pub const ESCAPED_AMPERSAND: &'static str = "&amp;amp;";

/// A plain ampersand.
pub const AMPERSAND: &'static str = "&";

/// The escaped `">` that ends a reference.
pub const ESCAPED_CLOSE: &'static str = "&quot;&gt;";

/// `s` without `suffix` at its end; `s` itself where it does not end in
/// `suffix`.
pub open spec fn without_suffix(s: Seq<char>, suffix: Seq<char>) -> Seq<char> {
    if occurs_at(s, s.len() - suffix.len(), suffix) {
        s.take(s.len() - suffix.len())
    } else {
        s
    }
}

/// The address that a matched reference stands for: every escaped ampersand
/// becomes a plain one, in a single pass, and then the escaped `">` at the
/// end is dropped.
pub open spec fn decoded(raw: Seq<char>) -> Seq<char> {
    without_suffix(replaced(raw, ESCAPED_AMPERSAND@, AMPERSAND@), ESCAPED_CLOSE@)
}

/// The addresses of a sequence of matched references, one for one.
pub open spec fn decoded_all(raw: Seq<Seq<char>>) -> Seq<Seq<char>> {
    Seq::new(raw.len(), |i: int| decoded(raw[i]))
}

/// The references that are not known yet, in their order, repeated where
/// `refs` repeats them.
pub open spec fn novel(refs: Seq<Seq<char>>, known: Set<Seq<char>>) -> Seq<Seq<char>> {
    refs.filter(|url: Seq<char>| !known.contains(url))
}

/// With nothing known, every reference is novel: the filter returns its
/// input unchanged.
pub proof fn lemma_nothing_known(refs: Seq<Seq<char>>)
    ensures
        novel(refs, Set::empty()) == refs,
    decreases refs.len(),
{
    reveal(Seq::filter);
    if refs.len() > 0 {
        lemma_nothing_known(refs.drop_last());
    }
}

/// Where every reference is known, none is novel. In particular, filtering
/// references by the set of those same references leaves nothing.
pub proof fn lemma_all_known(refs: Seq<Seq<char>>, known: Set<Seq<char>>)
    requires
        refs.to_set().subset_of(known),
    ensures
        novel(refs, known) == Seq::<Seq<char>>::empty(),
{
    refs.lemma_all_neg_filter_empty(|url: Seq<char>| !known.contains(url));
}

/// A reference is novel exactly if it is among the references and not among
/// the known ones.
pub proof fn lemma_novel_contains(refs: Seq<Seq<char>>, known: Set<Seq<char>>, url: Seq<char>)
    ensures
        novel(refs, known).contains(url) <==> refs.contains(url) && !known.contains(url),
{
    let keep = |u: Seq<char>| !known.contains(u);
    if novel(refs, known).contains(url) {
        refs.lemma_filter_contains_rev(keep, url);
    }
    if refs.contains(url) && !known.contains(url) {
        let i = choose|i: int| 0 <= i < refs.len() && refs[i] == url;
        refs.lemma_filter_contains(keep, i);
    }
}

/// The filter keeps the order of the references: filtering a list made of
/// two parts gives the filtered first part followed by the filtered second
/// part.
pub proof fn lemma_novel_keeps_order(
    first: Seq<Seq<char>>,
    second: Seq<Seq<char>>,
    known: Set<Seq<char>>,
)
    ensures
        novel(first + second, known) == novel(first, known) + novel(second, known),
{
    Seq::filter_distributes_over_add(first, second, |url: Seq<char>| !known.contains(url));
}

/// Decoding leaves an address as it is when the address holds no escaped
/// ampersand and does not end in the escaped close.
pub proof fn lemma_decoded_plain(url: Seq<char>)
    requires
        forall|at: int| !occurs_at(url, at, ESCAPED_AMPERSAND@),
        !occurs_at(url, url.len() - ESCAPED_CLOSE@.len(), ESCAPED_CLOSE@),
    ensures
        decoded(url) == url,
{
    lemma_replaced_without_occurrence(url, ESCAPED_AMPERSAND@, AMPERSAND@);
}

/// Decodes one matched reference into the address of its page.
pub fn decode_reference(raw: &str) -> (url: String)
    ensures
        url@ == decoded(raw@),
{
    let text = chars_of(raw);
    let escaped = chars_of(ESCAPED_AMPERSAND);
    let plain = chars_of(AMPERSAND);
    let close = chars_of(ESCAPED_CLOSE);
    let mut out = replace_all(&text, &escaped, &plain);
    if out.len() >= close.len() && starts_at(&out, out.len() - close.len(), &close) {
        out.truncate(out.len() - close.len());
    }
    string_of(&out)
}

/// Decodes matched references, one for one and in order.
pub fn decode_references(raw: &Vec<String>) -> (urls: Vec<String>)
    ensures
        urls.deep_view() == decoded_all(raw.deep_view()),
{
    let mut urls: Vec<String> = Vec::new();
    let mut i: usize = 0;
    while i < raw.len()
        invariant
            i <= raw.len(),
            urls.len() == i,
            forall|j: int| 0 <= j < i ==> (#[trigger] urls[j])@ == decoded(raw[j]@),
        decreases raw.len() - i,
    {
        let url = decode_reference(raw[i].as_str());
        urls.push(url);
        i += 1;
    }
    assert(urls.deep_view() =~= decoded_all(raw.deep_view()));
    urls
}

/// Get Flightlog URLs from the text of a KML file.
///
/// Every match of [`REFERENCE`] in `contents` gives one address, decoded, in
/// the order of the matches; repeated references are kept. A text without
/// references gives an empty list. The only error is a malformed pattern.
pub fn get_urls(contents: &str) -> (out: Result<Vec<String>, ScrapeError>)
    ensures
        out is Ok <==> is_pattern(REFERENCE@),
        out matches Ok(urls) ==> urls.deep_view() == decoded_all(matches_of(REFERENCE@, contents@)),
        out matches Err(error) ==> error == ScrapeError::Pattern,
{
    match find_all(REFERENCE, contents) {
        Ok(found) => Ok(decode_references(&found)),
        Err(_) => Err(ScrapeError::Pattern),
    }
}

/// Tests whether `url` is one of `known`.
pub fn is_known(known: &Vec<String>, url: &String) -> (found: bool)
    ensures
        found == known.deep_view().to_set().contains(url@),
{
    let mut j: usize = 0;
    while j < known.len()
        invariant
            j <= known.len(),
            forall|k: int| 0 <= k < j ==> known.deep_view()[k] != url@,
        decreases known.len() - j,
    {
        assert(known.deep_view()[j as int] == known[j as int]@);
        if known[j] == *url {
            return true;
        }
        j += 1;
    }
    false
}

/// Keeps the references that are not among `known`, in their order. Two
/// addresses are the same only if they agree character for character.
pub fn filter_known(refs: &Vec<String>, known: &Vec<String>) -> (out: Vec<String>)
    ensures
        out.deep_view() == novel(refs.deep_view(), known.deep_view().to_set()),
{
    let ghost keep = |url: Seq<char>| !known.deep_view().to_set().contains(url);
    let mut out: Vec<String> = Vec::new();
    let mut i: usize = 0;
    assert(refs.deep_view().take(0).filter(keep) =~= Seq::<Seq<char>>::empty()) by {
        reveal(Seq::filter);
    }
    while i < refs.len()
        invariant
            i <= refs.len(),
            keep == |url: Seq<char>| !known.deep_view().to_set().contains(url),
            out.deep_view() == refs.deep_view().take(i as int).filter(keep),
        decreases refs.len() - i,
    {
        proof {
            let done = refs.deep_view().take(i as int);
            assert(refs.deep_view().take(i + 1) =~= done.push(refs[i as int]@));
            done.lemma_filter_push(refs[i as int]@, keep);
        }
        if !is_known(known, &refs[i]) {
            out.push(refs[i].clone());
        }
        i += 1;
    }
    assert(refs.deep_view().take(refs.len() as int) =~= refs.deep_view());
    out
}

/// Get Flightlog URLs from the text of a KML file that are not among
/// `existing_urls`.
pub fn get_missing_urls(contents: &str, existing_urls: &Vec<String>) -> (out: Result<
    Vec<String>,
    ScrapeError,
>)
    ensures
        out is Ok <==> is_pattern(REFERENCE@),
        out matches Ok(urls) ==> urls.deep_view() == novel(
            decoded_all(matches_of(REFERENCE@, contents@)),
            existing_urls.deep_view().to_set(),
        ),
        out matches Err(error) ==> error == ScrapeError::Pattern,
{
    match get_urls(contents) {
        Ok(parsed_urls) => Ok(filter_known(&parsed_urls, existing_urls)),
        Err(e) => Err(e),
    }
}

} // verus!
