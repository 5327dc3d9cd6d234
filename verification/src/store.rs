//! The sync state store: for each path, the fingerprint recorded when the
//! path was last reconciled.

use vstd::prelude::*;

verus! {

/// What is known of a file at one moment: where it is, how long it is, when
/// it was modified (seconds since 1970) and the digest of its content.
#[derive(Debug, Clone, PartialEq, Eq)]
pub struct FileMetadata {
    pub path: String,
    pub size: u64,
    pub modified: i64,
    pub hash: String,
}

/// A `FileMetadata` with its texts as character sequences.
pub struct Fingerprint {
    pub path: Seq<char>,
    pub size: u64,
    pub modified: i64,
    pub hash: Seq<char>,
}

impl View for FileMetadata {
    type V = Fingerprint;

    open spec fn view(&self) -> Fingerprint {
        Fingerprint { path: self.path@, size: self.size, modified: self.modified, hash: self.hash@ }
    }
}

/// One row of the store: the fingerprint of a path at its last
/// reconciliation, and when that was (seconds since 1970).
#[derive(Debug, Clone, PartialEq, Eq)]
pub struct SyncStateRecord {
    pub path: String,
    pub size: u64,
    pub modified: i64,
    pub hash: String,
    pub last_sync: i64,
}

/// A `SyncStateRecord` with its texts as character sequences.
pub struct RecordView {
    pub path: Seq<char>,
    pub size: u64,
    pub modified: i64,
    pub hash: Seq<char>,
    pub last_sync: i64,
}

impl View for SyncStateRecord {
    type V = RecordView;

    open spec fn view(&self) -> RecordView {
        RecordView {
            path: self.path@,
            size: self.size,
            modified: self.modified,
            hash: self.hash@,
            last_sync: self.last_sync,
        }
    }
}

/// The row that records `meta` as reconciled at `now`.
pub open spec fn record_of(meta: Fingerprint, now: i64) -> RecordView {
    RecordView {
        path: meta.path,
        size: meta.size,
        modified: meta.modified,
        hash: meta.hash,
        last_sync: now,
    }
}

impl SyncStateRecord {
    /// The row that records `meta` as reconciled at `now`.
    pub fn from_metadata(meta: &FileMetadata, now: i64) -> (r: SyncStateRecord)
        ensures
            r@ == record_of(meta@, now),
    {
        SyncStateRecord {
            path: meta.path.clone(),
            size: meta.size,
            modified: meta.modified,
            hash: meta.hash.clone(),
            last_sync: now,
        }
    }

    /// A second copy of the row.
    pub fn duplicate(&self) -> (r: SyncStateRecord)
        ensures
            r@ == self@,
    {
        SyncStateRecord {
            path: self.path.clone(),
            size: self.size,
            modified: self.modified,
            hash: self.hash.clone(),
            last_sync: self.last_sync,
        }
    }
}

/// A table of rows with one row a path at most. Its view is the map from
/// path to row.
pub struct SyncStateStore {
    records: Vec<SyncStateRecord>,
}

/// No two rows of `rows` have the same path.
pub open spec fn distinct_paths(rows: Seq<SyncStateRecord>) -> bool {
    forall|i: int, j: int|
        0 <= i < j < rows.len() ==> (#[trigger] rows[i]).path@ != (#[trigger] rows[j]).path@
}

/// `rows` holds a row for `path`.
pub open spec fn has_row(rows: Seq<SyncStateRecord>, path: Seq<char>) -> bool {
    exists|i: int| 0 <= i < rows.len() && (#[trigger] rows[i]).path@ == path
}

/// The place of the row for `path` in `rows`.
pub open spec fn row_index(rows: Seq<SyncStateRecord>, path: Seq<char>) -> int {
    choose|i: int| 0 <= i < rows.len() && (#[trigger] rows[i]).path@ == path
}

/// The map that a list of rows stands for.
pub open spec fn table_of(rows: Seq<SyncStateRecord>) -> Map<Seq<char>, RecordView> {
    Map::new(|path: Seq<char>| has_row(rows, path), |path: Seq<char>| rows[row_index(rows, path)]@)
}

/// In a list with distinct paths, the row at `i` is the row for its path.
pub proof fn lemma_row_found(rows: Seq<SyncStateRecord>, i: int)
    requires
        distinct_paths(rows),
        0 <= i < rows.len(),
    ensures
        has_row(rows, rows[i].path@),
        row_index(rows, rows[i].path@) == i,
        table_of(rows)[rows[i].path@] == rows[i]@,
{
    let k = row_index(rows, rows[i].path@);
    assert(rows[k].path@ == rows[i].path@);
    if k < i {
        assert(rows[k].path@ != rows[i].path@);
    } else if i < k {
        assert(rows[i].path@ != rows[k].path@);
    }
}

/// Replacing the row at `i` by one with the same path replaces that path's
/// entry and no other.
pub proof fn lemma_replace_row(rows: Seq<SyncStateRecord>, i: int, row: SyncStateRecord)
    requires
        distinct_paths(rows),
        0 <= i < rows.len(),
        rows[i].path@ == row.path@,
    ensures
        distinct_paths(rows.update(i, row)),
        table_of(rows.update(i, row)) == table_of(rows).insert(row.path@, row@),
{
    let next = rows.update(i, row);
    assert forall|a: int, b: int| 0 <= a < b < next.len() implies (#[trigger] next[a]).path@ != (
    #[trigger] next[b]).path@ by {
        assert(next[a].path@ == rows[a].path@);
        assert(next[b].path@ == rows[b].path@);
    }
    assert forall|path: Seq<char>| has_row(next, path) == (has_row(rows, path) || path
        == row.path@) by {
        if has_row(next, path) {
            let k = row_index(next, path);
            assert(rows[k].path@ == path);
        }
        if has_row(rows, path) {
            let k = row_index(rows, path);
            assert(next[k].path@ == path);
        }
        if path == row.path@ {
            assert(next[i].path@ == path);
        }
    }
    assert forall|path: Seq<char>| has_row(next, path) implies #[trigger] table_of(next)[path]
        == table_of(rows).insert(row.path@, row@)[path] by {
        let k = row_index(next, path);
        lemma_row_found(next, k);
        if path != row.path@ {
            assert(k != i);
            lemma_row_found(rows, k);
        }
    }
    assert(table_of(next) =~= table_of(rows).insert(row.path@, row@));
}

/// Adding a row with a path that no row has adds that path's entry.
pub proof fn lemma_add_row(rows: Seq<SyncStateRecord>, row: SyncStateRecord)
    requires
        distinct_paths(rows),
        !has_row(rows, row.path@),
    ensures
        distinct_paths(rows.push(row)),
        table_of(rows.push(row)) == table_of(rows).insert(row.path@, row@),
{
    let next = rows.push(row);
    assert forall|a: int, b: int| 0 <= a < b < next.len() implies (#[trigger] next[a]).path@ != (
    #[trigger] next[b]).path@ by {
        assert(next[a] == rows[a]);
        if b < rows.len() {
            assert(next[b] == rows[b]);
        }
    }
    assert forall|path: Seq<char>| has_row(next, path) == (has_row(rows, path) || path
        == row.path@) by {
        if has_row(next, path) {
            let k = row_index(next, path);
            if k < rows.len() {
                assert(rows[k].path@ == path);
            }
        }
        if has_row(rows, path) {
            let k = row_index(rows, path);
            assert(next[k].path@ == path);
        }
        if path == row.path@ {
            assert(next[rows.len() as int].path@ == path);
        }
    }
    assert forall|path: Seq<char>| has_row(next, path) implies #[trigger] table_of(next)[path]
        == table_of(rows).insert(row.path@, row@)[path] by {
        let k = row_index(next, path);
        lemma_row_found(next, k);
        if path != row.path@ {
            assert(k < rows.len());
            assert(next[k] == rows[k]);
            lemma_row_found(rows, k);
        }
    }
    assert(table_of(next) =~= table_of(rows).insert(row.path@, row@));
}

impl View for SyncStateStore {
    type V = Map<Seq<char>, RecordView>;

    closed spec fn view(&self) -> Map<Seq<char>, RecordView> {
        table_of(self.records@)
    }
}

impl SyncStateStore {
    #[verifier::type_invariant]
    spec fn well_formed(&self) -> bool {
        distinct_paths(self.records@)
    }

    /// The number of rows.
    pub closed spec fn row_count(&self) -> nat {
        self.records@.len()
    }

    /// A store without rows.
    pub fn new() -> (store: SyncStateStore)
        ensures
            store@ == Map::<Seq<char>, RecordView>::empty(),
            store.row_count() == 0,
    {
        let store = SyncStateStore { records: Vec::new() };
        assert(store@ =~= Map::<Seq<char>, RecordView>::empty());
        store
    }

    /// The number of rows.
    pub fn len(&self) -> (n: usize)
        ensures
            n == self.row_count(),
    {
        self.records.len()
    }

    /// Whether the store has no row.
    pub fn is_empty(&self) -> (r: bool)
        ensures
            r == (self.row_count() == 0),
            r == (self@ == Map::<Seq<char>, RecordView>::empty()),
    {
        proof {
            use_type_invariant(self);
            if self.records@.len() > 0 {
                lemma_row_found(self.records@, 0);
                assert(self@.dom().contains(self.records@[0].path@));
            } else {
                assert(self@ =~= Map::<Seq<char>, RecordView>::empty());
            }
        }
        self.records.len() == 0
    }

    /// The row recorded for `path`, if there is one.
    pub fn get(&self, path: &String) -> (r: Option<&SyncStateRecord>)
        ensures
            r is Some == self@.dom().contains(path@),
            r matches Some(row) ==> row@ == self@[path@],
    {
        proof {
            use_type_invariant(self);
        }
        let mut i: usize = 0;
        while i < self.records.len()
            invariant
                i <= self.records.len(),
                distinct_paths(self.records@),
                forall|k: int| 0 <= k < i ==> (#[trigger] self.records@[k]).path@ != path@,
            decreases self.records.len() - i,
        {
            if self.records[i].path == *path {
                proof {
                    lemma_row_found(self.records@, i as int);
                }
                return Some(&self.records[i]);
            }
            i += 1;
        }
        None
    }

    /// Records `row` for its path: in place of the row that the path had, or
    /// as a new row.
    pub fn put(&mut self, row: SyncStateRecord)
        ensures
            final(self)@ == old(self)@.insert(row.path@, row@),
    {
        proof {
            use_type_invariant(&*self);
        }
        let mut rows: Vec<SyncStateRecord> = Vec::new();
        std::mem::swap(&mut rows, &mut self.records);
        let ghost before = rows@;
        let mut i: usize = 0;
        let mut found: bool = false;
        while i < rows.len()
            invariant_except_break
                !found,
                forall|k: int| 0 <= k < i ==> (#[trigger] rows@[k]).path@ != row.path@,
            invariant
                i <= rows.len(),
                rows@ == before,
            ensures
                found ==> i < rows.len() && rows@[i as int].path@ == row.path@,
                !found ==> !has_row(rows@, row.path@),
            decreases rows.len() - i,
        {
            if rows[i].path == row.path {
                found = true;
                break ;
            }
            i += 1;
        }
        if found {
            proof {
                lemma_replace_row(before, i as int, row);
            }
            rows.set(i, row);
        } else {
            proof {
                lemma_add_row(before, row);
            }
            rows.push(row);
        }
        self.records = rows;
    }
}

} // verus!
