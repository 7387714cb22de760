//! Case-insensitive lookup of gene records by symbol, alias or previous
//! symbol, built from the tab-delimited gene nomenclature table.
use vstd::prelude::*;

pub mod cache;
pub mod error;
pub mod lifecycle;
pub mod index;
pub mod record;
pub mod table;
pub mod text;

pub use cache::HgncCache;
pub use error::{ArchiveCorruptError, NotFoundError, ParseError};
pub use record::HgncRecord;
pub use table::create_hgnc_cache_from_reader;

use text::{normalize, to_upper};

verus! {

/// Looks a query up: it is uppercased and resolved through the index. On a
/// miss the error carries the query as given.
pub fn query_lookup_table(query: String, cache: &HgncCache) -> (r: Result<
    &HgncRecord,
    NotFoundError,
>)
    requires
        cache.wf(),
    ensures
        match r {
            Ok(rec) => {
                &&& cache.index().contains_key(normalize(query@))
                &&& rec.wf()
                &&& rec@ == cache.records_view()[cache.index()[normalize(query@)]]
            },
            Err(e) => !cache.index().contains_key(normalize(query@)) && e.query@ == query@,
        },
{
    let key = to_upper(query.as_str());
    match cache.get(key.as_str()) {
        Some(rec) => Ok(rec),
        None => Err(NotFoundError { query }),
    }
}

} // verus!
