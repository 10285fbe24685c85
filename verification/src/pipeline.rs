//! From a query and a feed body to the list of records.

use vstd::prelude::*;
use crate::encode::{encode_term, encoded_term};
use crate::feed::{feed_features, parse_features};
use crate::filter::{Embryo, EmbryoView, embryo_views, select, select_matching};
use crate::query::{QueryError, query_term, search_term};

verus! {

/// The records that a feed body yields for a search term: the term is
/// form-encoded, then compared with every feature of the feed.
pub open spec fn records_for(feed: Seq<char>, term: Seq<char>) -> Seq<EmbryoView> {
    select(feed_features(feed), encoded_term(term))
}

/// The records that a feed body yields for a search term, in the order of
/// the feed.
pub fn records_for_term(json_data: &str, term: &str) -> (records: Vec<Embryo>)
    ensures
        embryo_views(records@) == records_for(json_data@, term@),
{
    let encoded = encode_term(term);
    let features = parse_features(json_data);
    select_matching(&features, encoded.as_str())
}

/// The records that a feed body yields for a query. The query is refused
/// where it is not a JSON object of strings with exactly one entry; a feed
/// body that cannot be read yields no record.
pub fn extract_links_from_results(json_data: &str, json_search: &str) -> (r: Result<
    Vec<Embryo>,
    QueryError,
>)
    ensures
        match r {
            Ok(records) => query_term(json_search@) matches Some(term) && embryo_views(records@)
                == records_for(json_data@, term),
            Err(e) => query_term(json_search@) is None && e == QueryError::InvalidQuery,
        },
{
    match search_term(json_search) {
        Ok(term) => Ok(records_for_term(json_data, term.as_str())),
        Err(e) => Err(e),
    }
}

/// The records for a query, given what the fetch of the feed brought: the
/// body, or `None` where the fetch failed. A failed fetch yields no record,
/// whatever the query is.
pub fn generate_embryo_list(fetched: Option<String>, json_search: &str) -> (r: Result<
    Vec<Embryo>,
    QueryError,
>)
    ensures
        match (fetched, r) {
            (None, Ok(records)) => records@.len() == 0,
            (None, Err(_)) => false,
            (Some(body), Ok(records)) => query_term(json_search@) matches Some(term)
                && embryo_views(records@) == records_for(body@, term),
            (Some(body), Err(e)) => query_term(json_search@) is None && e
                == QueryError::InvalidQuery,
        },
{
    match fetched {
        Some(body) => extract_links_from_results(body.as_str(), json_search),
        None => Ok(Vec::new()),
    }
}

} // verus!
