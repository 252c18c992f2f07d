//! Buggle asks a bug tracker how many open issues match each of a list of queries and
//! sums the answers up in one short line, fit to be posted.
//!
//! The library holds every decision of such a run and none of its traffic:
//!
//! - `query` builds the request URL of a query;
//! - `tally` counts the data rows of a CSV response;
//! - `plan` decides what is to be done about one query, and what its result is;
//! - `run` takes a list of queries through their steps, in order;
//! - `report` renders the results as the summary line;
//! - `publish` makes the signed request that posts the line;
//! - `flags` holds the switches of a run;
//! - `text` has the helpers for text that the others share.
//!
//! Whoever drives a run makes the requests and prints the lines. The URL grammar, the
//! JSON writer and the request signer are hyper's, serde_json's and oauth1-request's.

pub mod flags;
pub mod plan;
pub mod publish;
pub mod query;
pub mod report;
pub mod run;
pub mod tally;
pub mod text;
