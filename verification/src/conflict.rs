//! Conflict detection and resolution.
//!
//! A file has a local and a remote replica. The store remembers the
//! fingerprint that the file had when the two were last reconciled. A conflict
//! is declared when both replicas have moved away from that fingerprint, or,
//! without a record, when their contents differ. A conflict is resolved by a
//! policy, which names a winner; the resolver answers with the steps that
//! carry the policy out, and the caller performs them on the file system.

use crate::clock::{epoch_seconds_now, local_time_label};
use crate::config::ConflictResolution;
use crate::error::{SyncError, SyncErrorView};
use crate::hash::{calculate_file_hash, content_hash};
pub use crate::store::FileMetadata;
use crate::store::{record_of, Fingerprint, RecordView, SyncStateRecord, SyncStateStore};
use vstd::prelude::*;

verus! {

// ---------------------------------------------------------------------------
// Probing
// ---------------------------------------------------------------------------

/// Seconds since 1970 as the signed number that a fingerprint holds: the same
/// 64 bits, read as signed.
pub open spec fn epoch_seconds(secs: u64) -> i64 {
    if secs <= i64::MAX {
        secs as i64
    } else {
        (secs - 0x1_0000_0000_0000_0000) as i64
    }
}

/// What reading a file gave: its length, its modification time in seconds
/// since 1970, and all of its bytes.
#[derive(Debug, Clone, PartialEq, Eq)]
pub struct FileRead {
    pub size: u64,
    pub modified_secs: u64,
    pub contents: Vec<u8>,
}

/// The fingerprint of a file with these attributes and this content.
pub open spec fn fingerprint_of(
    path: Seq<char>,
    size: u64,
    modified_secs: u64,
    contents: Seq<u8>,
) -> Fingerprint {
    Fingerprint {
        path,
        size,
        modified: epoch_seconds(modified_secs),
        hash: content_hash(contents),
    }
}

/// What probing the file at `path` comes to, given how reading it went: its
/// fingerprint, or an I/O error with the cause that kept it from being read.
pub open spec fn probe_result(path: Seq<char>, read: Result<FileRead, String>) -> Result<
    Fingerprint,
    SyncErrorView,
> {
    match read {
        Ok(file) => Ok(fingerprint_of(path, file.size, file.modified_secs, file.contents@)),
        Err(cause) => Err(SyncErrorView::Io { path, cause: cause@ }),
    }
}

// ---------------------------------------------------------------------------
// Detection
// ---------------------------------------------------------------------------

/// A replica has changed since the record was made: it is newer than the
/// record, or its content differs. Either is enough.
pub open spec fn changed_since(file: Fingerprint, record: RecordView) -> bool {
    file.modified > record.modified || file.hash != record.hash
}

/// Where a file stands with respect to its record.
#[derive(Debug, Clone, Copy, PartialEq, Eq, Structural)]
pub enum ConflictState {
    /// The file was never reconciled.
    NoRecord,
    /// Neither replica has changed since the record.
    RecordedClean,
    /// One replica has changed since the record, the other has not.
    RecordedDivergentOneSide,
    /// Both replicas have changed since the record.
    RecordedDivergentBothSides,
}

/// The state of a file with replicas `local` and `remote` and this record.
pub open spec fn state_of(
    local: Fingerprint,
    remote: Fingerprint,
    record: Option<RecordView>,
) -> ConflictState {
    match record {
        None => ConflictState::NoRecord,
        Some(r) => if changed_since(local, r) && changed_since(remote, r) {
            ConflictState::RecordedDivergentBothSides
        } else if changed_since(local, r) || changed_since(remote, r) {
            ConflictState::RecordedDivergentOneSide
        } else {
            ConflictState::RecordedClean
        },
    }
}

/// Whether the replicas `local` and `remote` are in conflict, given the
/// record of their last reconciliation.
pub open spec fn in_conflict(
    local: Fingerprint,
    remote: Fingerprint,
    record: Option<RecordView>,
) -> bool {
    match record {
        None => local.hash != remote.hash,
        Some(r) => changed_since(local, r) && changed_since(remote, r),
    }
}

// ---------------------------------------------------------------------------
// Resolution
// ---------------------------------------------------------------------------

/// One of the two replicas of a file.
#[derive(Debug, Clone, Copy, PartialEq, Eq, Structural)]
pub enum Side {
    Local,
    Remote,
}

/// The replica that `policy` lets win, if it lets one win.
pub open spec fn winner_of(local: Fingerprint, remote: Fingerprint, policy: ConflictResolution)
    -> Option<Side> {
    match policy {
        ConflictResolution::Skip => None,
        ConflictResolution::Overwrite => Some(Side::Local),
        ConflictResolution::Keep => Some(Side::Local),
        ConflictResolution::Newest => if local.modified >= remote.modified {
            Some(Side::Local)
        } else {
            Some(Side::Remote)
        },
        ConflictResolution::Largest => if local.size >= remote.size {
            Some(Side::Local)
        } else {
            Some(Side::Remote)
        },
    }
}

/// One step of carrying out a resolution. The caller performs the steps in
/// order and stops at the first that fails.
#[derive(Debug, Clone, PartialEq, Eq)]
pub enum ResolveStep {
    /// Give the file `from` the name `to`.
    RenameFile { from: String, to: String },
    /// Write the content of `from` over `to`.
    CopyFile { from: String, to: String },
    /// Probe the file at `path` and record its fingerprint in the store.
    RecordState { path: String },
}

/// A `ResolveStep` with its paths as character sequences.
pub enum StepView {
    RenameFile { from: Seq<char>, to: Seq<char> },
    CopyFile { from: Seq<char>, to: Seq<char> },
    RecordState { path: Seq<char> },
}

impl View for ResolveStep {
    type V = StepView;

    open spec fn view(&self) -> StepView {
        match *self {
            ResolveStep::RenameFile { from, to } => StepView::RenameFile { from: from@, to: to@ },
            ResolveStep::CopyFile { from, to } => StepView::CopyFile { from: from@, to: to@ },
            ResolveStep::RecordState { path } => StepView::RecordState { path: path@ },
        }
    }
}

/// The views of a list of steps.
pub open spec fn steps_of(plan: Seq<ResolveStep>) -> Seq<StepView> {
    plan.map_values(|s: ResolveStep| s@)
}

/// The name under which `Keep` preserves the remote replica:
/// `<remote>.conflict.<stamp>`.
pub open spec fn artifact_name(remote: Seq<char>, stamp: Seq<char>) -> Seq<char> {
    remote + ".conflict."@ + stamp
}

/// The steps that let `winner` win: its content goes over the other
/// replica, then its fingerprint is recorded.
pub open spec fn propagate(local: Fingerprint, remote: Fingerprint, winner: Side) -> Seq<
    StepView,
> {
    match winner {
        Side::Local => seq![
            StepView::CopyFile { from: local.path, to: remote.path },
            StepView::RecordState { path: local.path },
        ],
        Side::Remote => seq![
            StepView::CopyFile { from: remote.path, to: local.path },
            StepView::RecordState { path: remote.path },
        ],
    }
}

/// The steps that resolve a conflict between `local` and `remote` by
/// `policy`. `stamp` is the time of the resolution, which only `Keep` uses.
pub open spec fn resolution_plan(
    local: Fingerprint,
    remote: Fingerprint,
    policy: ConflictResolution,
    stamp: Seq<char>,
) -> Seq<StepView> {
    match winner_of(local, remote, policy) {
        None => Seq::empty(),
        Some(winner) => if policy == ConflictResolution::Keep {
            seq![
                StepView::RenameFile {
                    from: remote.path,
                    to: artifact_name(remote.path, stamp),
                },
            ] + propagate(local, remote, winner)
        } else {
            propagate(local, remote, winner)
        },
    }
}

/// Detects and resolves conflicts, and owns the store of recorded
/// fingerprints.
pub struct ConflictResolver {
    db_path: String,
    store: SyncStateStore,
}

/// The directory and file of the durable store, below the home directory.
pub open spec fn state_file_below(home: Seq<char>) -> Seq<char> {
    home + "/.ugnassync/sync_state.db"@
}

/// The home directory: `$HOME` where it is set, else `%USERPROFILE%`.
pub fn home_dir(home: Option<String>, user_profile: Option<String>) -> (dir: Option<String>)
    ensures
        dir == if home is Some {
            home
        } else {
            user_profile
        },
{
    match home {
        Some(h) => Some(h),
        None => user_profile,
    }
}

impl ConflictResolver {
    /// The recorded fingerprints, by path.
    pub closed spec fn records(&self) -> Map<Seq<char>, RecordView> {
        self.store@
    }

    /// The file that holds the durable store.
    pub closed spec fn state_file(&self) -> Seq<char> {
        self.db_path@
    }

    /// A resolver without records, whose durable store lies below `home`.
    /// Without a home directory there is no store.
    pub fn new(home: Option<&str>) -> (r: Result<ConflictResolver, SyncError>)
        ensures
            home is None ==> (r matches Err(e) && e@ == SyncErrorView::StoreUnavailable),
            home is Some ==> (r matches Ok(resolver) && resolver.records() == Map::<
                Seq<char>,
                RecordView,
            >::empty() && resolver.state_file() == state_file_below(home->0@)),
    {
        match home {
            None => Err(SyncError::StoreUnavailable),
            Some(h) => {
                let mut db_path = h.to_owned();
                db_path.append("/.ugnassync/sync_state.db");
                Ok(ConflictResolver { db_path, store: SyncStateStore::new() })
            },
        }
    }

    /// The file that holds the durable store.
    pub fn db_path(&self) -> (p: &str)
        ensures
            p@ == self.state_file(),
    {
        self.db_path.as_str()
    }

    /// The row recorded for `path`, if there is one.
    pub fn recorded(&self, path: &String) -> (r: Option<&SyncStateRecord>)
        ensures
            r is Some == self.records().dom().contains(path@),
            r matches Some(row) ==> row@ == self.records()[path@],
    {
        self.store.get(path)
    }

    /// Takes over a row that was read from the durable store.
    pub fn load_record(&mut self, row: SyncStateRecord)
        ensures
            final(self).records() == old(self).records().insert(row.path@, row@),
            final(self).state_file() == old(self).state_file(),
    {
        self.store.put(row);
    }

    /// Probes the file at `path`, given how reading it went: `read` holds
    /// what was read, or why the file could not be read.
    pub fn get_file_metadata(path: &str, read: &Result<FileRead, String>) -> (r: Result<
        FileMetadata,
        SyncError,
    >)
        ensures
            match r {
                Ok(meta) => probe_result(path@, *read) == Ok::<Fingerprint, SyncErrorView>(meta@),
                Err(e) => probe_result(path@, *read) == Err::<Fingerprint, SyncErrorView>(e@),
            },
    {
        match read {
            Err(cause) => Err(SyncError::Io { path: path.to_owned(), cause: cause.clone() }),
            Ok(file) => {
                let modified: i64 = if file.modified_secs <= 0x7fff_ffff_ffff_ffff {
                    file.modified_secs as i64
                } else {
                    let low: u64 = file.modified_secs - 0x8000_0000_0000_0000;
                    (low as i64) + i64::MIN
                };
                Ok(
                    FileMetadata {
                        path: path.to_owned(),
                        size: file.size,
                        modified,
                        hash: calculate_file_hash(file.contents.as_slice()),
                    },
                )
            },
        }
    }

    /// Where the file stands with respect to its record. The record is the
    /// one of the local path.
    pub fn classify(&self, local: &FileMetadata, remote: &FileMetadata) -> (state: ConflictState)
        ensures
            state == state_of(local@, remote@, self.records().get(local.path@)),
    {
        match self.store.get(&local.path) {
            None => ConflictState::NoRecord,
            Some(row) => {
                let local_changed = local.modified > row.modified || local.hash != row.hash;
                let remote_changed = remote.modified > row.modified || remote.hash != row.hash;
                if local_changed && remote_changed {
                    ConflictState::RecordedDivergentBothSides
                } else if local_changed || remote_changed {
                    ConflictState::RecordedDivergentOneSide
                } else {
                    ConflictState::RecordedClean
                }
            },
        }
    }

    /// Whether the two replicas are in conflict. The record is the one of the
    /// local path.
    pub fn detect_conflict(&self, local: &FileMetadata, remote: &FileMetadata) -> (conflict: bool)
        ensures
            conflict == in_conflict(local@, remote@, self.records().get(local.path@)),
    {
        match self.store.get(&local.path) {
            Some(row) => {
                let local_changed = local.modified > row.modified || local.hash != row.hash;
                let remote_changed = remote.modified > row.modified || remote.hash != row.hash;
                local_changed && remote_changed
            },
            None => local.hash != remote.hash,
        }
    }

    /// The steps that resolve a conflict between `local` and `remote` by
    /// `strategy`, where `stamp` is the time of the resolution.
    pub fn plan_resolution(
        local: &FileMetadata,
        remote: &FileMetadata,
        strategy: &ConflictResolution,
        stamp: &str,
    ) -> (plan: Vec<ResolveStep>)
        ensures
            steps_of(plan@) == resolution_plan(local@, remote@, *strategy, stamp@),
    {
        let mut plan: Vec<ResolveStep> = Vec::new();
        let local_wins: bool = match strategy {
            ConflictResolution::Skip => {
                assert(steps_of(plan@) == Seq::<StepView>::empty());
                return plan;
            },
            ConflictResolution::Overwrite => true,
            ConflictResolution::Keep => true,
            ConflictResolution::Newest => local.modified >= remote.modified,
            ConflictResolution::Largest => local.size >= remote.size,
        };
        if let ConflictResolution::Keep = strategy {
            let mut to = remote.path.clone();
            to.append(".conflict.");
            to.append(stamp);
            plan.push(ResolveStep::RenameFile { from: remote.path.clone(), to });
        }
        if local_wins {
            plan.push(ResolveStep::CopyFile { from: local.path.clone(), to: remote.path.clone() });
            plan.push(ResolveStep::RecordState { path: local.path.clone() });
        } else {
            plan.push(ResolveStep::CopyFile { from: remote.path.clone(), to: local.path.clone() });
            plan.push(ResolveStep::RecordState { path: remote.path.clone() });
        }
        assert(steps_of(plan@) =~= resolution_plan(local@, remote@, *strategy, stamp@));
        plan
    }

    /// The steps that resolve a conflict between `local` and `remote` by
    /// `strategy`, now: `Keep` stamps the preserved replica with the local
    /// time.
    pub fn resolve_conflict(
        &self,
        local: &FileMetadata,
        remote: &FileMetadata,
        strategy: &ConflictResolution,
    ) -> (plan: Vec<ResolveStep>)
        ensures
            exists|stamp: Seq<char>|
                steps_of(plan@) == #[trigger] resolution_plan(local@, remote@, *strategy, stamp),
            *strategy != ConflictResolution::Keep ==> steps_of(plan@) == resolution_plan(
                local@,
                remote@,
                *strategy,
                Seq::empty(),
            ),
    {
        if let ConflictResolution::Keep = strategy {
            let stamp = local_time_label();
            let plan = Self::plan_resolution(local, remote, strategy, stamp.as_str());
            assert(steps_of(plan@) == resolution_plan(local@, remote@, *strategy, stamp@));
            plan
        } else {
            let plan = Self::plan_resolution(local, remote, strategy, "");
            proof {
                let stamp = ""@;
                assert(resolution_plan(local@, remote@, *strategy, stamp) == resolution_plan(
                    local@,
                    remote@,
                    *strategy,
                    Seq::empty(),
                ));
                assert(steps_of(plan@) == resolution_plan(local@, remote@, *strategy, stamp));
            }
            plan
        }
    }

    /// Records `meta` as reconciled at `now`, in place of what was recorded
    /// for its path. Answers with the row that was written.
    pub fn record_sync_state(&mut self, meta: &FileMetadata, now: i64) -> (row: SyncStateRecord)
        ensures
            row@ == record_of(meta@, now),
            final(self).records() == old(self).records().insert(meta.path@, record_of(meta@, now)),
            final(self).state_file() == old(self).state_file(),
    {
        let row = SyncStateRecord::from_metadata(meta, now);
        let copy = row.duplicate();
        self.store.put(row);
        copy
    }

    /// Ends the resolution of the conflict of `local`, given how carrying
    /// out its steps went: `carried_out` holds the fingerprint that the winner
    /// has now, or why a step failed. The winner is recorded as reconciled
    /// now; a failure records nothing and comes back as `ResolutionFailed`.
    pub fn conclude_resolution(
        &mut self,
        local: &FileMetadata,
        carried_out: &Result<FileMetadata, String>,
    ) -> (r: Result<SyncStateRecord, SyncError>)
        ensures
            final(self).state_file() == old(self).state_file(),
            match *carried_out {
                Ok(winner) => {
                    &&& r matches Ok(row)
                    &&& row@ == record_of(winner@, row.last_sync)
                    &&& final(self).records() == old(self).records().insert(winner.path@, row@)
                },
                Err(cause) => {
                    &&& r matches Err(e)
                    &&& e@ == SyncErrorView::ResolutionFailed { path: local.path@, cause: cause@ }
                    &&& final(self).records() == old(self).records()
                },
            },
    {
        match carried_out {
            Ok(winner) => Ok(self.update_sync_state(winner)),
            Err(cause) => Err(
                SyncError::ResolutionFailed { path: local.path.clone(), cause: cause.clone() },
            ),
        }
    }

    /// Records `meta` as reconciled now, in place of what was recorded for
    /// its path. Answers with the row that was written.
    pub fn update_sync_state(&mut self, meta: &FileMetadata) -> (row: SyncStateRecord)
        ensures
            row@ == record_of(meta@, row.last_sync),
            final(self).records() == old(self).records().insert(meta.path@, row@),
            final(self).state_file() == old(self).state_file(),
    {
        let now = epoch_seconds_now();
        self.record_sync_state(meta, now)
    }
}

// ---------------------------------------------------------------------------
// What detection guarantees
// ---------------------------------------------------------------------------

/// Without a record, there is a conflict exactly when the contents differ.
pub proof fn lemma_no_record_conflict(local: Fingerprint, remote: Fingerprint)
    ensures
        in_conflict(local, remote, None) <==> local.hash != remote.hash,
{
}

/// With a record, there is a conflict when both replicas have changed since
/// it, and none when at most one has.
pub proof fn lemma_recorded_conflict(local: Fingerprint, remote: Fingerprint, record: RecordView)
    ensures
        changed_since(local, record) && changed_since(remote, record) ==> in_conflict(
            local,
            remote,
            Some(record),
        ),
        !(changed_since(local, record) && changed_since(remote, record)) ==> !in_conflict(
            local,
            remote,
            Some(record),
        ),
{
}

/// Replicas with the same content are not in conflict: without a record
/// always, and with one as long as the content is the recorded one and one of
/// the replicas is no newer than the record. (Where both are newer, or the
/// common content is not the recorded one, both count as changed and the
/// conflict is declared.)
pub proof fn lemma_same_content_no_conflict(
    local: Fingerprint,
    remote: Fingerprint,
    record: Option<RecordView>,
)
    requires
        local.hash == remote.hash,
        record matches Some(r) ==> local.hash == r.hash && (local.modified <= r.modified
            || remote.modified <= r.modified),
    ensures
        !in_conflict(local, remote, record),
{
}

/// With the same content on both sides, those are all the cases without a
/// conflict.
pub proof fn lemma_same_content_conflict(
    local: Fingerprint,
    remote: Fingerprint,
    record: RecordView,
)
    requires
        local.hash == remote.hash,
    ensures
        in_conflict(local, remote, Some(record)) <==> (local.hash != record.hash || (local.modified
            > record.modified && remote.modified > record.modified)),
{
}

/// A conflict is declared in two states: without a record where the
/// contents differ, and with one where both replicas have diverged.
pub proof fn lemma_conflict_by_state(
    local: Fingerprint,
    remote: Fingerprint,
    record: Option<RecordView>,
)
    ensures
        in_conflict(local, remote, record) <==> (state_of(local, remote, record)
            == ConflictState::NoRecord && local.hash != remote.hash) || state_of(
            local,
            remote,
            record,
        ) == ConflictState::RecordedDivergentBothSides,
{
}

/// A newer time stamp counts as a change even where the content is the
/// recorded one: a remote replica that was only touched, beside a local one
/// that was edited, is a conflict.
pub proof fn lemma_touched_counts_as_changed(
    local: Fingerprint,
    remote: Fingerprint,
    record: RecordView,
)
    requires
        local.hash != record.hash,
        remote.hash == record.hash,
        remote.modified > record.modified,
    ensures
        in_conflict(local, remote, Some(record)),
{
}

/// A replica whose fingerprint has just been recorded has not changed
/// since, so it is in conflict with nothing: a resolved conflict stays
/// resolved until the winner changes again.
pub proof fn lemma_recorded_replica_is_settled(winner: Fingerprint, other: Fingerprint, now: i64)
    ensures
        !changed_since(winner, record_of(winner, now)),
        !in_conflict(winner, other, Some(record_of(winner, now))),
        !in_conflict(other, winner, Some(record_of(winner, now))),
{
}

/// Recording one path drops no row and touches no other path: what was
/// recorded for another file is as it was.
pub proof fn lemma_recording_leaves_other_paths(
    records: Map<Seq<char>, RecordView>,
    meta: Fingerprint,
    now: i64,
    other: Seq<char>,
)
    requires
        other != meta.path,
    ensures
        records.insert(meta.path, record_of(meta, now)).get(other) == records.get(other),
        records.insert(meta.path, record_of(meta, now)).get(meta.path) == Some(
            record_of(meta, now),
        ),
        records.dom().subset_of(records.insert(meta.path, record_of(meta, now)).dom()),
{
}

// ---------------------------------------------------------------------------
// What resolution guarantees
// ---------------------------------------------------------------------------

/// `Newest` lets the local replica win a tie of modification times, and
/// `Largest` a tie of sizes.
pub proof fn lemma_ties_favor_local(local: Fingerprint, remote: Fingerprint)
    ensures
        local.modified == remote.modified ==> winner_of(local, remote, ConflictResolution::Newest)
            == Some(Side::Local),
        local.size == remote.size ==> winner_of(local, remote, ConflictResolution::Largest)
            == Some(Side::Local),
{
}

/// The winner under `Newest` and `Largest` is the replica that is no older,
/// or no smaller, than the other.
pub proof fn lemma_winner_dominates(local: Fingerprint, remote: Fingerprint)
    ensures
        winner_of(local, remote, ConflictResolution::Newest) == Some(Side::Local)
            <==> local.modified >= remote.modified,
        winner_of(local, remote, ConflictResolution::Newest) == Some(Side::Remote)
            <==> local.modified < remote.modified,
        winner_of(local, remote, ConflictResolution::Largest) == Some(Side::Local) <==> local.size
            >= remote.size,
        winner_of(local, remote, ConflictResolution::Largest) == Some(Side::Remote) <==> local.size
            < remote.size,
{
}

/// `Skip` takes no step. Every other plan ends with the one step that
/// records, after the steps that touch files: where a file step fails,
/// nothing has been recorded.
pub proof fn lemma_record_comes_last(
    local: Fingerprint,
    remote: Fingerprint,
    policy: ConflictResolution,
    stamp: Seq<char>,
)
    ensures
        policy == ConflictResolution::Skip <==> resolution_plan(local, remote, policy, stamp).len()
            == 0,
        policy != ConflictResolution::Skip ==> resolution_plan(
            local,
            remote,
            policy,
            stamp,
        ).last() is RecordState,
        forall|i: int|
            0 <= i < resolution_plan(local, remote, policy, stamp).len() - 1
                ==> !(#[trigger] resolution_plan(local, remote, policy, stamp)[i] is RecordState),
{
}

} // verus!
