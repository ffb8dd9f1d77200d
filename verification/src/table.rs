//! The session table: an ordered sequence of (user, record) pairs with
//! unique user keys. This is the orchestrator's entire durable state.

use crate::session::{record_wf, RecordView, SessionRecord};
use vstd::prelude::*;

verus! {

/// Index of the first pair at or after `k` whose key is `user`, or the
/// length of the table when no such pair exists.
pub open spec fn key_index_from(t: Seq<(u64, RecordView)>, user: u64, k: int) -> int
    decreases t.len() - k,
{
    if k < 0 || k >= t.len() {
        t.len() as int
    } else if t[k].0 == user {
        k
    } else {
        key_index_from(t, user, k + 1)
    }
}

/// Index of the user's pair, or the length of the table when absent.
pub open spec fn key_index(t: Seq<(u64, RecordView)>, user: u64) -> int {
    key_index_from(t, user, 0)
}

/// Whether the table holds a record for the user.
pub open spec fn has_key(t: Seq<(u64, RecordView)>, user: u64) -> bool {
    key_index(t, user) < t.len()
}

/// The user's record; meaningful only when `has_key` holds.
pub open spec fn record_of(t: Seq<(u64, RecordView)>, user: u64) -> RecordView {
    t[key_index(t, user)].1
}

/// No two pairs share a key.
pub open spec fn keys_unique(t: Seq<(u64, RecordView)>) -> bool {
    forall|i: int, j: int| 0 <= i < j < t.len() ==> (#[trigger] t[i]).0 != (#[trigger] t[j]).0
}

/// Table well-formedness: unique keys and well-formed records.
pub open spec fn table_wf(t: Seq<(u64, RecordView)>) -> bool {
    &&& keys_unique(t)
    &&& forall|i: int| 0 <= i < t.len() ==> record_wf((#[trigger] t[i]).1)
}

/// The table after the user's record is set to `r`: replaced in place when
/// the user is present, appended at the end when absent.
pub open spec fn table_with(t: Seq<(u64, RecordView)>, user: u64, r: RecordView) -> Seq<
    (u64, RecordView),
> {
    if has_key(t, user) {
        t.update(key_index(t, user), (user, r))
    } else {
        t.push((user, r))
    }
}

/// `key_index_from` lands at or after `k`, on a pair with the key when one
/// exists, and every pair it skips has another key.
pub proof fn lemma_key_index_from(t: Seq<(u64, RecordView)>, user: u64, k: int)
    requires
        0 <= k <= t.len(),
    ensures
        k <= key_index_from(t, user, k) <= t.len(),
        key_index_from(t, user, k) < t.len() ==> t[key_index_from(t, user, k)].0 == user,
        forall|j: int| k <= j < key_index_from(t, user, k) ==> (#[trigger] t[j]).0 != user,
    decreases t.len() - k,
{
    if k < t.len() && t[k].0 != user {
        lemma_key_index_from(t, user, k + 1);
    }
}

/// Specialisation of `lemma_key_index_from` to the full search.
pub proof fn lemma_key_index(t: Seq<(u64, RecordView)>, user: u64)
    ensures
        0 <= key_index(t, user) <= t.len(),
        has_key(t, user) ==> t[key_index(t, user)].0 == user,
        forall|j: int| 0 <= j < key_index(t, user) ==> (#[trigger] t[j]).0 != user,
        !has_key(t, user) ==> forall|j: int| 0 <= j < t.len() ==> (#[trigger] t[j]).0 != user,
{
    lemma_key_index_from(t, user, 0);
}

/// With unique keys, any pair holding the key stands exactly at `key_index`.
pub proof fn lemma_key_index_unique(t: Seq<(u64, RecordView)>, user: u64, i: int)
    requires
        keys_unique(t),
        0 <= i < t.len(),
        t[i].0 == user,
    ensures
        key_index(t, user) == i,
{
    lemma_key_index(t, user);
    let k = key_index(t, user);
    if k < i {
        assert(t[k].0 == user);
        assert(t[k].0 != t[i].0);
    } else if k > i {
        assert(t[i].0 != user);
    }
}

/// Setting a record preserves table well-formedness if the new record is
/// well-formed, and changes no other user's record.
pub proof fn lemma_table_with(t: Seq<(u64, RecordView)>, user: u64, r: RecordView)
    requires
        table_wf(t),
        record_wf(r),
    ensures
        table_wf(table_with(t, user, r)),
        has_key(table_with(t, user, r), user),
        record_of(table_with(t, user, r), user) == r,
        forall|u: u64|
            u != user ==> #[trigger] has_key(table_with(t, user, r), u) == has_key(t, u),
        forall|u: u64|
            u != user && has_key(t, u) ==> #[trigger] record_of(table_with(t, user, r), u)
                == record_of(t, u),
{
    lemma_key_index(t, user);
    let t2 = table_with(t, user, r);
    let k = key_index(t, user);
    if has_key(t, user) {
        assert(keys_unique(t2)) by {
            assert(forall|i: int| 0 <= i < t2.len() ==> (#[trigger] t2[i]).0 == t[i].0);
        }
        lemma_key_index_unique(t2, user, k);
    } else {
        assert(keys_unique(t2)) by {
            assert(forall|j: int| 0 <= j < t.len() ==> (#[trigger] t[j]).0 != user);
            assert(forall|i: int| 0 <= i < t.len() ==> t2[i] == t[i]);
        }
        lemma_key_index_unique(t2, user, t.len() as int);
    }
    assert forall|u: u64| u != user implies #[trigger] has_key(t2, u) == has_key(t, u) by {
        lemma_other_key_unchanged(t, user, r, u);
    }
    assert forall|u: u64| u != user && has_key(t, u) implies #[trigger] record_of(t2, u)
        == record_of(t, u) by {
        lemma_other_key_unchanged(t, user, r, u);
    }
}

/// Helper for `lemma_table_with`: another user's presence and record are
/// untouched by `table_with`.
proof fn lemma_other_key_unchanged(t: Seq<(u64, RecordView)>, user: u64, r: RecordView, u: u64)
    requires
        keys_unique(t),
        u != user,
    ensures
        has_key(table_with(t, user, r), u) == has_key(t, u),
        has_key(t, u) ==> record_of(table_with(t, user, r), u) == record_of(t, u),
{
    let t2 = table_with(t, user, r);
    lemma_key_index(t, user);
    lemma_key_index(t, u);
    lemma_key_index(t2, u);
    if has_key(t, u) {
        let i = key_index(t, u);
        assert(t2[i].0 == u);
        assert(keys_unique(t2)) by {
            lemma_table_with_keys(t, user, r);
        }
        lemma_key_index_unique(t2, u, i);
    } else {
        if has_key(t2, u) {
            let i = key_index(t2, u);
            assert(t2[i].0 == u);
            assert(0 <= i < t2.len());
            if i < t.len() {
                assert(t[i].0 == u);
            } else {
                assert(t2[i].0 == user);
            }
        }
    }
}

/// Helper: `table_with` keeps the keys unique.
proof fn lemma_table_with_keys(t: Seq<(u64, RecordView)>, user: u64, r: RecordView)
    requires
        keys_unique(t),
    ensures
        keys_unique(table_with(t, user, r)),
{
    let t2 = table_with(t, user, r);
    lemma_key_index(t, user);
    if has_key(t, user) {
        assert(forall|i: int| 0 <= i < t2.len() ==> (#[trigger] t2[i]).0 == t[i].0);
    } else {
        assert(forall|j: int| 0 <= j < t.len() ==> (#[trigger] t[j]).0 != user);
        assert(forall|i: int| 0 <= i < t.len() ==> t2[i] == t[i]);
    }
}

/// Mapping from the executable pairs to their mathematical model.
pub open spec fn pairs_view(entries: Seq<(u64, SessionRecord)>) -> Seq<(u64, RecordView)> {
    entries.map_values(|p: (u64, SessionRecord)| (p.0, p.1@))
}

/// Mapping from user identity to `SessionRecord`, in insertion order; the
/// orchestrator's only durable state.
pub struct SessionTable {
    entries: Vec<(u64, SessionRecord)>,
}

impl View for SessionTable {
    type V = Seq<(u64, RecordView)>;

    closed spec fn view(&self) -> Seq<(u64, RecordView)> {
        pairs_view(self.entries@)
    }
}

impl SessionTable {
    /// The empty table a process starts with.
    pub fn new() -> (t: SessionTable)
        ensures
            t@ =~= Seq::<(u64, RecordView)>::empty(),
    {
        SessionTable { entries: Vec::new() }
    }

    /// Index of the user's entry, when present.
    fn position(&self, user: u64) -> (r: Option<usize>)
        ensures
            match r {
                Some(i) => i == key_index(self@, user) && i < self@.len(),
                None => !has_key(self@, user),
            },
    {
        let ghost t = self@;
        let mut i: usize = 0;
        while i < self.entries.len()
            invariant
                t == pairs_view(self.entries@),
                i <= self.entries@.len(),
                t.len() == self.entries@.len(),
                key_index(t, user) == key_index_from(t, user, i as int),
            decreases self.entries@.len() - i,
        {
            if self.entries[i].0 == user {
                return Some(i);
            }
            i = i + 1;
        }
        None
    }

    /// Read-only lookup of the user's record.
    pub fn get(&self, user: u64) -> (r: Option<&SessionRecord>)
        ensures
            match r {
                Some(rec) => has_key(self@, user) && rec@ == record_of(self@, user),
                None => !has_key(self@, user),
            },
    {
        match self.position(user) {
            Some(i) => Some(&self.entries[i].1),
            None => None,
        }
    }

    /// An owned copy of the user's record.
    pub fn snapshot_record(&self, user: u64) -> (r: Option<SessionRecord>)
        ensures
            match r {
                Some(rec) => has_key(self@, user) && rec@ == record_of(self@, user),
                None => !has_key(self@, user),
            },
    {
        match self.get(user) {
            Some(rec) => Some(rec.duplicate()),
            None => None,
        }
    }

    /// Sets the user's record: replaces it in place when present, appends
    /// it when absent.
    pub fn set_record(&mut self, user: u64, rec: SessionRecord)
        ensures
            final(self)@ == table_with(old(self)@, user, rec@),
    {
        let ghost t = self@;
        match self.position(user) {
            Some(i) => {
                self.entries[i] = (user, rec);
                proof {
                    assert(self@ =~= t.update(key_index(t, user), (user, rec@)));
                }
            },
            None => {
                self.entries.push((user, rec));
                proof {
                    assert(self@ =~= t.push((user, rec@)));
                }
            },
        }
    }

    /// Number of sessions held.
    pub fn len(&self) -> (n: usize)
        ensures
            n == self@.len(),
    {
        self.entries.len()
    }

    /// The pair at a position, for ordered inspection.
    pub fn entry_at(&self, i: usize) -> (r: (u64, SessionRecord))
        requires
            i < self@.len(),
        ensures
            r.0 == self@[i as int].0,
            r.1@ == self@[i as int].1,
    {
        let p = &self.entries[i];
        (p.0, p.1.duplicate())
    }
}

} // verus!
