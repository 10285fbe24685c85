//! Filtering of disaster alerts from a public alert feed.
//!
//! A query carries one search term. The term is form-encoded and compared, as a
//! substring in either direction, with the name, the country and the start date
//! of every feature of the feed; each feature that is related to the term yields
//! one record, in the order of the feed. The feed is asked for the alerts of the
//! last seven days, and the service that answers the queries starts by asking a
//! registry for its port.
//!
//! - [`text`]: substrings and decimal digits;
//! - [`encode`]: the form encoding of the search term;
//! - [`filter`]: features, records and the selection;
//! - [`json`], [`feed`], [`query`]: reading the feed and the query;
//! - [`pipeline`]: from a query and a feed body to the records;
//! - [`date`], [`window`]: the window of days and the address of the feed;
//! - [`startup`]: the steps of the start;
//! - [`laws`]: what holds of all of these together.

pub mod text;
pub mod encode;
pub mod filter;
pub mod json;
pub mod feed;
pub mod query;
pub mod pipeline;
pub mod date;
pub mod window;
pub mod startup;
pub mod laws;
