//! A model of the two file trees and of what the store has recorded, to say
//! what carrying out a resolution does.
//!
//! In the model a path names one file, and two paths name the same file only
//! if they are the same text. A step fails where the file it reads is
//! missing, and a copy fails where source and destination are one path.

use crate::config::ConflictResolution;
use crate::conflict::{artifact_name, resolution_plan, winner_of, Side, StepView};
use crate::hash::content_hash;
use crate::store::Fingerprint;
use vstd::prelude::*;

verus! {

/// The files that exist, with their content, and the digest recorded for
/// each reconciled path.
pub struct Replicas {
    pub files: Map<Seq<char>, Seq<u8>>,
    pub recorded: Map<Seq<char>, Seq<char>>,
}

/// What one step makes of `w`, or `None` where the step fails.
pub open spec fn step_effect(w: Replicas, step: StepView) -> Option<Replicas> {
    match step {
        StepView::RenameFile { from, to } => if w.files.dom().contains(from) {
            Some(Replicas { files: w.files.remove(from).insert(to, w.files[from]), ..w })
        } else {
            None
        },
        StepView::CopyFile { from, to } => if w.files.dom().contains(from) && from != to {
            Some(Replicas { files: w.files.insert(to, w.files[from]), ..w })
        } else {
            None
        },
        StepView::RecordState { path } => if w.files.dom().contains(path) {
            Some(Replicas { recorded: w.recorded.insert(path, content_hash(w.files[path])), ..w })
        } else {
            None
        },
    }
}

/// Where a run of steps ends, and whether it got through all of them.
pub struct Outcome {
    pub world: Replicas,
    pub completed: bool,
}

/// Performs `steps` in order on `w` and stops at the first that fails.
pub open spec fn run_plan(w: Replicas, steps: Seq<StepView>) -> Outcome
    decreases steps.len(),
{
    if steps.len() == 0 {
        Outcome { world: w, completed: true }
    } else {
        match step_effect(w, steps[0]) {
            Some(next) => run_plan(next, steps.drop_first()),
            None => Outcome { world: w, completed: false },
        }
    }
}

/// The fingerprint `file` is the one of the file at its path in `w`.
pub open spec fn is_current(w: Replicas, file: Fingerprint) -> bool {
    w.files.dom().contains(file.path) && file.hash == content_hash(w.files[file.path])
}

/// A run of two steps, step by step.
proof fn lemma_run_two(w: Replicas, a: StepView, b: StepView)
    ensures
        run_plan(w, seq![a, b]) == match step_effect(w, a) {
            None => Outcome { world: w, completed: false },
            Some(w1) => match step_effect(w1, b) {
                None => Outcome { world: w1, completed: false },
                Some(w2) => Outcome { world: w2, completed: true },
            },
        },
{
    let steps = seq![a, b];
    reveal_with_fuel(run_plan, 3);
    assert(steps.drop_first() =~= seq![b]);
    assert(steps.drop_first().drop_first() =~= Seq::<StepView>::empty());
}

/// A run of three steps, step by step.
proof fn lemma_run_three(w: Replicas, a: StepView, b: StepView, c: StepView)
    ensures
        run_plan(w, seq![a, b, c]) == match step_effect(w, a) {
            None => Outcome { world: w, completed: false },
            Some(w1) => run_plan(w1, seq![b, c]),
        },
{
    let steps = seq![a, b, c];
    assert(steps.drop_first() =~= seq![b, c]);
}

/// `Skip` changes nothing: no file, and no record, so that the conflict is
/// found again at the next run.
pub proof fn lemma_skip_changes_nothing(
    w: Replicas,
    local: Fingerprint,
    remote: Fingerprint,
    stamp: Seq<char>,
)
    ensures
        run_plan(w, resolution_plan(local, remote, ConflictResolution::Skip, stamp)) == (Outcome {
            world: w,
            completed: true,
        }),
{
}

/// `Overwrite` leaves the remote file with the content that the local file
/// had, leaves the local file and every other file as they were, and records
/// the digest of that content for the local path.
pub proof fn lemma_overwrite_mirrors_local(
    w: Replicas,
    local: Fingerprint,
    remote: Fingerprint,
    stamp: Seq<char>,
)
    requires
        w.files.dom().contains(local.path),
        local.path != remote.path,
    ensures
        ({
            let end = run_plan(
                w,
                resolution_plan(local, remote, ConflictResolution::Overwrite, stamp),
            );
            &&& end.completed
            &&& end.world.files == w.files.insert(remote.path, w.files[local.path])
            &&& end.world.files[remote.path] == w.files[local.path]
            &&& end.world.files[local.path] == w.files[local.path]
            &&& end.world.recorded == w.recorded.insert(
                local.path,
                content_hash(w.files[local.path]),
            )
            &&& is_current(w, local) ==> end.world.recorded[local.path] == local.hash
        }),
{
    lemma_run_two(
        w,
        StepView::CopyFile { from: local.path, to: remote.path },
        StepView::RecordState { path: local.path },
    );
}

/// `Keep` gives the remote file the name `<remote>.conflict.<stamp>`, which
/// is the one name that the tree gains, then leaves the remote path with the
/// content that the local file had, and records the digest of that content
/// for the local path.
pub proof fn lemma_keep_preserves_remote(
    w: Replicas,
    local: Fingerprint,
    remote: Fingerprint,
    stamp: Seq<char>,
)
    requires
        w.files.dom().contains(local.path),
        w.files.dom().contains(remote.path),
        local.path != remote.path,
        local.path != artifact_name(remote.path, stamp),
    ensures
        ({
            let plan = resolution_plan(local, remote, ConflictResolution::Keep, stamp);
            let end = run_plan(w, plan);
            let artifact = artifact_name(remote.path, stamp);
            &&& plan.len() == 3
            &&& plan[0] == StepView::RenameFile { from: remote.path, to: artifact }
            &&& !(plan[1] is RenameFile)
            &&& !(plan[2] is RenameFile)
            &&& artifact != remote.path
            &&& end.completed
            &&& end.world.files.dom() == w.files.dom().insert(artifact)
            &&& end.world.files[artifact] == w.files[remote.path]
            &&& end.world.files[remote.path] == w.files[local.path]
            &&& end.world.files[local.path] == w.files[local.path]
            &&& end.world.recorded == w.recorded.insert(
                local.path,
                content_hash(w.files[local.path]),
            )
            &&& is_current(w, local) ==> end.world.recorded[local.path] == local.hash
        }),
{
    let artifact = artifact_name(remote.path, stamp);
    let rename = StepView::RenameFile { from: remote.path, to: artifact };
    let copy = StepView::CopyFile { from: local.path, to: remote.path };
    let record = StepView::RecordState { path: local.path };
    let plan = resolution_plan(local, remote, ConflictResolution::Keep, stamp);
    assert(plan =~= seq![rename, copy, record]);
    reveal_strlit(".conflict.");
    assert(artifact.len() == remote.path.len() + 10 + stamp.len());
    lemma_run_three(w, rename, copy, record);
    let w1 = step_effect(w, rename)->0;
    lemma_run_two(w1, copy, record);
    let end = run_plan(w, plan);
    assert(end.world.files.dom() =~= w.files.dom().insert(artifact));
}

/// Whatever the policy, the winner's content ends up on the other side, the
/// winner's file stays as it was, and the winner's digest is recorded under
/// the winner's path. (For `Keep`, see `lemma_keep_preserves_remote`.)
pub proof fn lemma_winner_propagates(
    w: Replicas,
    local: Fingerprint,
    remote: Fingerprint,
    policy: ConflictResolution,
    stamp: Seq<char>,
)
    requires
        w.files.dom().contains(local.path),
        w.files.dom().contains(remote.path),
        local.path != remote.path,
        policy != ConflictResolution::Keep,
        policy != ConflictResolution::Skip,
    ensures
        ({
            let end = run_plan(w, resolution_plan(local, remote, policy, stamp));
            let (winner, loser) = if winner_of(local, remote, policy) == Some(Side::Local) {
                (local, remote)
            } else {
                (remote, local)
            };
            &&& end.completed
            &&& end.world.files == w.files.insert(loser.path, w.files[winner.path])
            &&& end.world.recorded == w.recorded.insert(
                winner.path,
                content_hash(w.files[winner.path]),
            )
        }),
{
    if winner_of(local, remote, policy) == Some(Side::Local) {
        lemma_run_two(
            w,
            StepView::CopyFile { from: local.path, to: remote.path },
            StepView::RecordState { path: local.path },
        );
    } else {
        lemma_run_two(
            w,
            StepView::CopyFile { from: remote.path, to: local.path },
            StepView::RecordState { path: remote.path },
        );
    }
}

/// A resolution that fails on the way has recorded nothing: the store is
/// as it was before.
pub proof fn lemma_failure_records_nothing(
    w: Replicas,
    local: Fingerprint,
    remote: Fingerprint,
    policy: ConflictResolution,
    stamp: Seq<char>,
)
    ensures
        !run_plan(w, resolution_plan(local, remote, policy, stamp)).completed ==> run_plan(
            w,
            resolution_plan(local, remote, policy, stamp),
        ).world.recorded == w.recorded,
{
    let plan = resolution_plan(local, remote, policy, stamp);
    match winner_of(local, remote, policy) {
        None => {},
        Some(winner) => {
            let (from, to) = if winner == Side::Local {
                (local.path, remote.path)
            } else {
                (remote.path, local.path)
            };
            let copy = StepView::CopyFile { from, to };
            let record = StepView::RecordState { path: from };
            if policy == ConflictResolution::Keep {
                let rename = StepView::RenameFile {
                    from: remote.path,
                    to: artifact_name(remote.path, stamp),
                };
                assert(plan =~= seq![rename, copy, record]);
                lemma_run_three(w, rename, copy, record);
                if step_effect(w, rename) is Some {
                    lemma_run_two(step_effect(w, rename)->0, copy, record);
                }
            } else {
                assert(plan =~= seq![copy, record]);
                lemma_run_two(w, copy, record);
            }
        },
    }
}

} // verus!
