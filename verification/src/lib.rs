//! Catalog of medical-imaging files, searchable by patient identifier and name.
//!
//! The crate holds the decisions of a batch indexer and of the query that
//! follows it: how each candidate file is classified, what the run statistics
//! hold afterwards, which documents reach the catalog, and which engine query
//! answers a pair of optional search terms.  Reading the file system is left
//! to the caller, who hands in plain values.
pub mod indexer;
pub mod output;
pub mod search;
pub mod types;
