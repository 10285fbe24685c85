//! The query: a JSON object with a single entry, whose value is the search
//! term.

use vstd::prelude::*;
use crate::json::{parsed_string_values, parse_string_values};

verus! {

/// Why a query is refused.
#[derive(Clone, Copy, Debug, PartialEq, Eq)]
pub enum QueryError {
    /// The body is not a JSON object of strings with exactly one entry.
    InvalidQuery,
}

/// The only value of a list of one value.
pub open spec fn single(values: Seq<Seq<char>>) -> Option<Seq<char>> {
    if values.len() == 1 {
        Some(values[0])
    } else {
        None
    }
}

/// The search term of a query body: the value of its only entry; `None`
/// where the body is not a JSON object of strings with exactly one entry.
pub open spec fn query_term(body: Seq<char>) -> Option<Seq<char>> {
    match parsed_string_values(body) {
        Some(values) => single(values),
        None => None,
    }
}

/// The search term among the values of a query: the only value, and an
/// error where there is none or more than one.
pub fn single_value(values: Vec<String>) -> (r: Result<String, QueryError>)
    ensures
        match r {
            Ok(term) => single(values.deep_view()) == Some(term@),
            Err(e) => single(values.deep_view()) is None && e == QueryError::InvalidQuery,
        },
{
    let mut values = values;
    if values.len() == 1 {
        match values.pop() {
            Some(term) => Ok(term),
            None => Err(QueryError::InvalidQuery),
        }
    } else {
        Err(QueryError::InvalidQuery)
    }
}

/// The search term of a query body.
pub fn search_term(body: &str) -> (r: Result<String, QueryError>)
    ensures
        match r {
            Ok(term) => query_term(body@) == Some(term@),
            Err(e) => query_term(body@) is None && e == QueryError::InvalidQuery,
        },
{
    match parse_string_values(body) {
        Ok(values) => single_value(values),
        Err(_) => Err(QueryError::InvalidQuery),
    }
}

} // verus!
