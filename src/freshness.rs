//! Folding per-source freshness into one decision, and deciding when the
//! composed database has to be produced again.
use vstd::prelude::*;
use crate::source::SourceSpec;

verus! {

/// The outcome of synchronizing one source during a run.
#[derive(Debug)]
pub struct SyncResult {
    pub source: SourceSpec,
    /// A copy was freshly obtained, or an update brought new content.
    pub changed: bool,
}

/// Some source in `results` changed during the run.
pub open spec fn any_changed(results: Seq<SyncResult>) -> bool {
    exists|i: int| 0 <= i < results.len() && results[i].changed
}

/// Logical OR of every result's `changed`, base first, then each overlay.
pub fn aggregate(results: &Vec<SyncResult>) -> (r: bool)
    ensures
        r == any_changed(results@),
{
    let mut fresh = false;
    let mut i: usize = 0;
    while i < results.len()
        invariant
            i <= results@.len(),
            fresh == exists|j: int| 0 <= j < i && results@[j].changed,
        decreases results@.len() - i,
    {
        fresh = fresh || results[i].changed;
        i = i + 1;
    }
    fresh
}

/// A rebuild is owed when a source changed or an expected output is absent.
pub open spec fn rebuild_needed(aggregate: bool, database_exists: bool, metadata_exists: bool) -> bool {
    aggregate || !database_exists || !metadata_exists
}

/// Whether the composer must run, given the aggregated freshness and which
/// of the database and metadata files are present.
pub fn should_rebuild(aggregate: bool, database_exists: bool, metadata_exists: bool) -> (r: bool)
    ensures
        r == rebuild_needed(aggregate, database_exists, metadata_exists),
{
    aggregate || !database_exists || !metadata_exists
}

} // verus!
