//! Search of a listing: a case-insensitive test for a term anywhere in a
//! record's searchable texts.

use crate::text::{
    contains, has_substring, lowercase, lowercased, opt_string_view, strings_view, strs_view, trim,
};
use crate::utils::search_term_of;
use vstd::prelude::*;

verus! {

/// The needle a search request looks for: its term in lower case, or none
/// where the request has no term.
pub open spec fn needle_of(search: Option<Seq<char>>) -> Option<Seq<char>> {
    match search_term_of(search) {
        Some(term) => Some(lowercased(term)),
        None => None,
    }
}

/// The lower-case forms of a list of texts, in order.
pub open spec fn lowered(texts: Seq<Seq<char>>) -> Seq<Seq<char>> {
    texts.map_values(|t: Seq<char>| lowercased(t))
}

/// Whether one of `texts` holds `needle`.
pub open spec fn any_holds(texts: Seq<Seq<char>>, needle: Seq<char>) -> bool {
    exists|i: int| 0 <= i < texts.len() && has_substring(#[trigger] texts[i], needle)
}

/// Whether a record with these searchable texts meets a search: without a
/// needle every record does, with one a record that holds it in one of its
/// texts, letter case aside.
pub open spec fn meets(texts: Seq<Seq<char>>, needle: Option<Seq<char>>) -> bool {
    needle matches Some(n) ==> any_holds(lowered(texts), n)
}

/// Reads the needle from a search request.
pub fn needle(search: &Option<String>) -> (found: Option<String>)
    ensures
        opt_string_view(found) == needle_of(opt_string_view(*search)),
{
    match search {
        Some(s) => {
            let term = trim(s.as_str());
            if term.is_empty() {
                None
            } else {
                Some(lowercase(term))
            }
        },
        None => None,
    }
}

/// The lower-case forms of a list of texts, in order.
pub fn lower_all(texts: &Vec<&str>) -> (lower: Vec<String>)
    ensures
        strings_view(lower@) == lowered(strs_view(texts@)),
{
    let mut lower: Vec<String> = Vec::new();
    let mut i: usize = 0;
    while i < texts.len()
        invariant
            i <= texts.len(),
            lower.len() == i,
            forall|k: int| 0 <= k < i ==> (#[trigger] lower[k])@ == lowercased(texts[k]@),
        decreases texts.len() - i,
    {
        lower.push(lowercase(texts[i]));
        i += 1;
    }
    assert(strings_view(lower@) =~= lowered(strs_view(texts@)));
    lower
}

/// Whether one of `texts` holds `needle`, character for character.
pub fn found_in(texts: &Vec<String>, needle: &str) -> (found: bool)
    ensures
        found == any_holds(strings_view(texts@), needle@),
{
    let mut i: usize = 0;
    while i < texts.len()
        invariant
            i <= texts.len(),
            forall|k: int| 0 <= k < i ==> !has_substring(#[trigger] strings_view(texts@)[k], needle@),
        decreases texts.len() - i,
    {
        assert(strings_view(texts@)[i as int] == texts[i as int]@);
        if contains(texts[i].as_str(), needle) {
            return true;
        }
        i += 1;
    }
    false
}

/// Whether a record with these searchable texts meets a search.
pub fn meets_search(texts: &Vec<&str>, needle: &Option<String>) -> (met: bool)
    ensures
        met == meets(strs_view(texts@), opt_string_view(*needle)),
{
    match needle {
        Some(n) => {
            let lower = lower_all(texts);
            found_in(&lower, n.as_str())
        },
        None => true,
    }
}

} // verus!
