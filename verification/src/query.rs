//! Query-parameter extraction: the request's URL is handed to the `url`
//! crate for decoding, and the lookup over the decoded pairs is verified.

use vstd::prelude::*;
use vstd::string::*;

verus! {

/// What URL parsing yields for a given string: `None` when the string is
/// not an absolute URL, else the decoded `key=value` pairs of its query,
/// in order. The result depends on the string alone.
pub uninterp spec fn query_pairs_of(url: Seq<char>) -> Option<Seq<(Seq<char>, Seq<char>)>>;

/// The views of a vector of string pairs.
pub open spec fn pairs_view(pairs: Seq<(String, String)>) -> Seq<(Seq<char>, Seq<char>)> {
    pairs.map_values(|p: (String, String)| (p.0@, p.1@))
}

/// Relies on url::Url::parse and Url::query_pairs: parsing an absolute URL
/// either fails or yields its query's decoded pairs in order, a function
/// of the string alone.
#[verifier::external_body]
fn url_query_pairs(full_url: &String) -> (r: Option<Vec<(String, String)>>)
    ensures
        match r {
            Some(v) => query_pairs_of(full_url@) == Some(pairs_view(v@)),
            None => query_pairs_of(full_url@) is None,
        },
{
    match url::Url::parse(full_url.as_str()) {
        Ok(u) => Some(u.query_pairs().into_owned().collect()),
        Err(_) => None,
    }
}

/// The value of the last pair carrying `key`, if any: collecting pairs
/// into a map lets a later duplicate overwrite an earlier one.
pub open spec fn lookup_param(pairs: Seq<(Seq<char>, Seq<char>)>, key: Seq<char>) -> Option<
    Seq<char>,
>
    decreases pairs.len(),
{
    if pairs.len() == 0 {
        None
    } else if pairs.last().0 == key {
        Some(pairs.last().1)
    } else {
        lookup_param(pairs.drop_last(), key)
    }
}

/// Finds the value of the last pair named `key`.
pub fn find_param(pairs: &Vec<(String, String)>, key: &String) -> (r: Option<String>)
    ensures
        match r {
            Some(v) => lookup_param(pairs_view(pairs@), key@) == Some(v@),
            None => lookup_param(pairs_view(pairs@), key@) is None,
        },
{
    proof {
        assert(pairs_view(pairs@).take(pairs@.len() as int) =~= pairs_view(pairs@));
    }
    let mut i: usize = pairs.len();
    while i > 0
        invariant
            i <= pairs.len(),
            lookup_param(pairs_view(pairs@), key@) == lookup_param(
                pairs_view(pairs@).take(i as int),
                key@,
            ),
        decreases i,
    {
        i = i - 1;
        proof {
            assert(pairs_view(pairs@).take(i as int + 1).last() == pairs_view(pairs@)[i as int]);
            assert(pairs_view(pairs@).take(i as int + 1).drop_last() =~= pairs_view(pairs@).take(
                i as int,
            ));
        }
        if pairs[i].0 == *key {
            return Some(pairs[i].1.clone());
        }
    }
    None
}

/// Splices the service's base URL onto the request's path-and-query and
/// yields the decoded query pairs; `None` when the splice is not a URL.
pub fn parse_query_params(base_url: &String, path_and_query: &String) -> (r: Option<
    Vec<(String, String)>,
>)
    ensures
        match r {
            Some(v) => query_pairs_of(base_url@ + path_and_query@) == Some(pairs_view(v@)),
            None => query_pairs_of(base_url@ + path_and_query@) is None,
        },
{
    let mut full = base_url.clone();
    full.append(path_and_query.as_str());
    url_query_pairs(&full)
}

} // verus!
