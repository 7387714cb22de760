//! Where a cache comes from when the program starts.
use vstd::prelude::*;

verus! {

/// How to obtain the cache.
#[derive(Debug, Clone, Copy, PartialEq, Eq, Structural)]
pub enum CacheSource {
    /// Build from the given table file, then store the archive, replacing any.
    RebuildFromFile,
    /// Load the stored archive as it is.
    LoadArchive,
    /// Fetch the table over the network, build from it, then store the archive.
    Download,
}

/// A table file that is given always wins; otherwise a stored archive is
/// preferred to a download.
pub fn cache_source(table_file_given: bool, archive_exists: bool) -> (r: CacheSource)
    ensures
        table_file_given ==> r == CacheSource::RebuildFromFile,
        !table_file_given && archive_exists ==> r == CacheSource::LoadArchive,
        !table_file_given && !archive_exists ==> r == CacheSource::Download,
{
    if table_file_given {
        CacheSource::RebuildFromFile
    } else if archive_exists {
        CacheSource::LoadArchive
    } else {
        CacheSource::Download
    }
}

} // verus!
