//! Global guarantees of the orchestrator, stated over the session table's
//! mathematical model. Every entry operation requires and re-establishes
//! `Orchestrator::wf`, so these hold of every reachable state and of every
//! snapshot `query_state` hands out.

use crate::session::{RecordView, TRIES_LIMIT};
use crate::table::{keys_unique, table_wf};
use vstd::prelude::*;

verus! {

/// A well-formed table holds at most one record per user: two positions
/// with the same user identity are the same position.
pub proof fn lemma_at_most_one_record_per_user(
    t: Seq<(u64, RecordView)>,
    i: int,
    j: int,
)
    requires
        table_wf(t),
        0 <= i < t.len(),
        0 <= j < t.len(),
        t[i].0 == t[j].0,
    ensures
        i == j,
{
    assert(keys_unique(t));
    if i < j {
        assert(t[i].0 != t[j].0);
    } else if j < i {
        assert(t[j].0 != t[i].0);
    }
}

/// In a well-formed table, no record's tries count exceeds the limit of
/// five guesses.
pub proof fn lemma_tries_never_exceed_limit(t: Seq<(u64, RecordView)>, i: int)
    requires
        table_wf(t),
        0 <= i < t.len(),
    ensures
        t[i].1.tries <= TRIES_LIMIT,
{
}

} // verus!
