//! Release statistics — map raw git data into [`ReleaseStats`].
//!
//! Gathering the underlying numbers means running git, which happens
//! outside this crate; this module holds the mapping into the pipeline
//! context's shape. Stats are non-fatal: a run without them proceeds.

use vstd::prelude::*;

use crate::git::GitStats;
use crate::pipeline::{Contributor, ReleaseStats};

verus! {

/// What building release statistics must return: nothing when the stat
/// gathering itself failed; otherwise the numbers carried over and the
/// contributor pairs mapped in order (an empty list when contributors
/// failed to gather).
pub open spec fn stats_built(
    stats: Option<GitStats>,
    contributors: Option<Vec<(String, usize)>>,
    r: Option<ReleaseStats>,
) -> bool {
    &&& (r is Some) == (stats is Some)
    &&& r matches Some(rs) ==> {
        &&& stats matches Some(gs) && rs.commit_count == gs.commit_count && rs.files_changed
            == gs.files_changed && rs.insertions == gs.insertions && rs.deletions == gs.deletions
        &&& (contributors matches Some(cs) ==> {
            &&& rs.contributors@.len() == cs@.len()
            &&& forall|j: int|
                0 <= j < cs@.len() ==> (#[trigger] rs.contributors@[j]).name == cs@[j].0
                    && rs.contributors@[j].count == cs@[j].1
        })
        &&& (contributors is None ==> rs.contributors@.len() == 0)
    }
}

/// Build release statistics from gathered git data.
pub fn compute_stats(stats: Option<GitStats>, contributors: Option<Vec<(String, usize)>>) -> (r:
    Option<ReleaseStats>)
    ensures
        stats_built(stats, contributors, r),
{
    let gs = match stats {
        Some(gs) => gs,
        None => {
            return None;
        },
    };
    let list: Vec<Contributor> = match contributors {
        Some(cs) => {
            let mut out: Vec<Contributor> = Vec::new();
            let mut i: usize = 0;
            while i < cs.len()
                invariant
                    0 <= i <= cs@.len(),
                    out@.len() == i,
                    forall|j: int|
                        0 <= j < i ==> (#[trigger] out@[j]).name == cs@[j].0 && out@[j].count
                            == cs@[j].1,
                decreases cs@.len() - i,
            {
                let pair = &cs[i];
                out.push(Contributor { name: pair.0.clone(), count: pair.1 });
                i += 1;
            }
            out
        },
        None => Vec::new(),
    };
    Some(
        ReleaseStats {
            commit_count: gs.commit_count,
            files_changed: gs.files_changed,
            insertions: gs.insertions,
            deletions: gs.deletions,
            contributors: list,
        },
    )
}

} // verus!
