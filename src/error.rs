//! Errors of building, loading and querying a cache.
use vstd::prelude::*;

verus! {

/// The table could not be read into a cache.
#[derive(Debug, Clone, Copy, PartialEq, Eq, Structural)]
pub enum ParseError {
    /// There is no header line.
    EmptyInput,
}

/// Stored cache parts that do not form a cache.
#[derive(Debug, Clone, Copy, PartialEq, Eq, Structural)]
pub enum ArchiveCorruptError {
    /// The record at this position lacks some columns.
    MalformedRecord { position: usize },
    /// The index entry at this position names a record past the last one.
    DanglingIndex { entry: usize },
}

/// A query that no key of the cache matches.
#[derive(Debug)]
pub struct NotFoundError {
    /// The query as it was given, before normalisation.
    pub query: String,
}

impl NotFoundError {
    /// The message shown for a query that was not found.
    pub fn message(&self) -> (r: String)
        ensures
            r@ == "Query '"@ + self.query@ + "' not found in cache"@,
    {
        let head = String::from_str("Query '");
        head.concat(self.query.as_str()).concat("' not found in cache")
    }
}

} // verus!
