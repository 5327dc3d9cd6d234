use ugnassync::config::ConflictResolution;
use ugnassync::conflict::{
    home_dir, ConflictResolver, ConflictState, FileMetadata, FileRead, ResolveStep,
};
use ugnassync::error::SyncError;
use ugnassync::hash::{calculate_file_hash, to_hex_lower};
use ugnassync::store::{SyncStateRecord, SyncStateStore};

const HASH_A: &str = "aaaaaaaaaaaaaaaaaaaaaaaaaaaaaaaaaaaaaaaaaaaaaaaaaaaaaaaaaaaaaaaa";
const HASH_B: &str = "bbbbbbbbbbbbbbbbbbbbbbbbbbbbbbbbbbbbbbbbbbbbbbbbbbbbbbbbbbbbbbbb";
const HASH_C: &str = "cccccccccccccccccccccccccccccccccccccccccccccccccccccccccccccccc";

fn meta(path: &str, size: u64, modified: i64, hash: &str) -> FileMetadata {
    FileMetadata { path: path.to_string(), size, modified, hash: hash.to_string() }
}

fn row(path: &str, modified: i64, hash: &str) -> SyncStateRecord {
    SyncStateRecord {
        path: path.to_string(),
        size: 10,
        modified,
        hash: hash.to_string(),
        last_sync: modified,
    }
}

fn probe(path: &str, size: u64, modified_secs: u64, contents: &[u8]) -> FileMetadata {
    let read = Ok(FileRead { size, modified_secs, contents: contents.to_vec() });
    ConflictResolver::get_file_metadata(path, &read).unwrap()
}

fn resolver() -> ConflictResolver {
    ConflictResolver::new(Some("/home/user")).unwrap()
}

fn resolver_with(record: SyncStateRecord) -> ConflictResolver {
    let mut r = resolver();
    r.load_record(record);
    r
}

fn copy(from: &str, to: &str) -> ResolveStep {
    ResolveStep::CopyFile { from: from.to_string(), to: to.to_string() }
}

fn record(path: &str) -> ResolveStep {
    ResolveStep::RecordState { path: path.to_string() }
}

#[test]
fn test_conflict_resolver_creation() {
    let resolver = ConflictResolver::new(Some("/home/user"));
    assert!(resolver.is_ok());
}

#[test]
fn resolver_keeps_its_store_below_the_home_directory() {
    let resolver = ConflictResolver::new(Some("/home/user")).unwrap();
    assert_eq!(resolver.db_path(), "/home/user/.ugnassync/sync_state.db");
    assert!(resolver.recorded(&"/l/a".to_string()).is_none());
}

#[test]
fn resolver_without_home_has_no_store() {
    assert!(matches!(ConflictResolver::new(None), Err(SyncError::StoreUnavailable)));
}

#[test]
fn home_dir_prefers_home_over_user_profile() {
    assert_eq!(
        home_dir(Some("/home/u".to_string()), Some("C:\\Users\\u".to_string())),
        Some("/home/u".to_string())
    );
    assert_eq!(home_dir(None, Some("C:\\Users\\u".to_string())), Some("C:\\Users\\u".to_string()));
    assert_eq!(home_dir(None, None), None);
}

#[test]
fn sha256_of_known_inputs() {
    assert_eq!(
        calculate_file_hash(b"abc"),
        "ba7816bf8f01cfea414140de5dae2223b00361a396177a9cb410ff61f20015ad"
    );
    assert_eq!(
        calculate_file_hash(b""),
        "e3b0c44298fc1c149afbf4c8996fb92427ae41e4649b934ca495991b7852b855"
    );
}

#[test]
fn hex_is_lower_case_and_two_digits_a_byte() {
    assert_eq!(to_hex_lower(&vec![0x00, 0x0a, 0x14, 0x1e, 0xff, 0xc4]), "000a141effc4");
    assert_eq!(to_hex_lower(&vec![]), "");
}

#[test]
fn metadata_holds_the_attributes_and_the_digest() {
    let m = probe("/l/a.txt", 3, 1_700_000_000, b"abc");
    assert_eq!(
        m,
        meta(
            "/l/a.txt",
            3,
            1_700_000_000,
            "ba7816bf8f01cfea414140de5dae2223b00361a396177a9cb410ff61f20015ad"
        )
    );
}

#[test]
fn metadata_reads_the_seconds_as_signed() {
    let m = probe("/l/a", 0, u64::MAX, b"");
    assert_eq!(m.modified, -1);
    let m = probe("/l/a", 0, 1 << 63, b"");
    assert_eq!(m.modified, i64::MIN);
    let m = probe("/l/a", 0, (1 << 63) - 1, b"");
    assert_eq!(m.modified, i64::MAX);
}

#[test]
fn five_probes_of_an_untouched_file_agree() {
    let content = b"the same bytes every time";
    let first = probe("/l/a.txt", 25, 1_700_000_000, content);
    for _ in 0..4 {
        let again = probe("/l/a.txt", 25, 1_700_000_000, content);
        assert_eq!(again, first);
    }
    assert_eq!(first.hash.len(), 64);
}

#[test]
fn a_file_that_cannot_be_read_is_an_io_error() {
    let read = Err("No such file or directory (os error 2)".to_string());
    assert_eq!(
        ConflictResolver::get_file_metadata("/l/missing.txt", &read),
        Err(SyncError::Io {
            path: "/l/missing.txt".to_string(),
            cause: "No such file or directory (os error 2)".to_string()
        })
    );
}

#[test]
fn the_size_is_the_one_that_was_read_not_the_length_of_the_content() {
    let m = probe("/l/a", 1000, 5, b"abc");
    assert_eq!(m.size, 1000);
}

#[test]
fn different_content_gives_a_different_digest() {
    let a = probe("/l/a.txt", 1, 5, b"a");
    let b = probe("/l/a.txt", 1, 5, b"b");
    assert_ne!(a.hash, b.hash);
}

#[test]
fn no_record_conflict_iff_hashes_differ() {
    let r = resolver();
    let local = meta("/l/a", 1, 100, HASH_A);
    assert!(!r.detect_conflict(&local, &meta("/r/a", 9, 999, HASH_A)));
    assert!(r.detect_conflict(&local, &meta("/r/a", 1, 100, HASH_B)));
    assert_eq!(r.classify(&local, &meta("/r/a", 1, 100, HASH_B)), ConflictState::NoRecord);
}

#[test]
fn identical_content_is_no_conflict_with_a_clean_record() {
    let r = resolver_with(row("/l/a", 100, HASH_A));
    let local = meta("/l/a", 1, 100, HASH_A);
    let remote = meta("/r/a", 1, 90, HASH_A);
    assert!(!r.detect_conflict(&local, &remote));
    assert_eq!(r.classify(&local, &remote), ConflictState::RecordedClean);
}

#[test]
fn both_sides_changed_is_a_conflict() {
    let r = resolver_with(row("/l/a", 100, HASH_A));
    let local = meta("/l/a", 1, 150, HASH_B);
    let remote = meta("/r/a", 1, 160, HASH_C);
    assert!(r.detect_conflict(&local, &remote));
    assert_eq!(r.classify(&local, &remote), ConflictState::RecordedDivergentBothSides);
}

#[test]
fn one_side_changed_is_no_conflict() {
    let r = resolver_with(row("/l/a", 100, HASH_A));
    let unchanged = meta("/r/a", 1, 100, HASH_A);
    let edited = meta("/l/a", 1, 150, HASH_B);
    assert!(!r.detect_conflict(&edited, &unchanged));
    assert_eq!(r.classify(&edited, &unchanged), ConflictState::RecordedDivergentOneSide);
    let local_unchanged = meta("/l/a", 1, 100, HASH_A);
    let remote_edited = meta("/r/a", 1, 150, HASH_B);
    assert!(!r.detect_conflict(&local_unchanged, &remote_edited));
}

#[test]
fn changed_hash_without_newer_time_counts_as_changed() {
    let r = resolver_with(row("/l/a", 100, HASH_A));
    let local = meta("/l/a", 1, 50, HASH_B);
    let remote = meta("/r/a", 1, 60, HASH_C);
    assert!(r.detect_conflict(&local, &remote));
}

#[test]
fn touched_remote_beside_edited_local_is_a_conflict() {
    let r = resolver_with(row("/l/a", 100, HASH_A));
    let local = meta("/l/a", 1, 150, HASH_B);
    let remote = meta("/r/a", 1, 200, HASH_A);
    assert!(r.detect_conflict(&local, &remote));
    assert_eq!(r.classify(&local, &remote), ConflictState::RecordedDivergentBothSides);
}

#[test]
fn same_content_on_both_sides_still_conflicts_when_both_are_newer() {
    let r = resolver_with(row("/l/a", 100, HASH_A));
    let local = meta("/l/a", 1, 150, HASH_A);
    let remote = meta("/r/a", 1, 200, HASH_A);
    assert!(r.detect_conflict(&local, &remote));
}

#[test]
fn the_record_is_looked_up_by_the_local_path() {
    let r = resolver_with(row("/r/a", 100, HASH_A));
    let local = meta("/l/a", 1, 150, HASH_B);
    let remote = meta("/r/a", 1, 160, HASH_B);
    assert_eq!(r.classify(&local, &remote), ConflictState::NoRecord);
    assert!(!r.detect_conflict(&local, &remote));
}

#[test]
fn skip_takes_no_step() {
    let plan = ConflictResolver::plan_resolution(
        &meta("/l/a", 1, 1, HASH_A),
        &meta("/r/a", 2, 2, HASH_B),
        &ConflictResolution::Skip,
        "20250101-120000",
    );
    assert!(plan.is_empty());
    let r = resolver();
    assert!(r
        .resolve_conflict(
            &meta("/l/a", 1, 1, HASH_A),
            &meta("/r/a", 2, 2, HASH_B),
            &ConflictResolution::Skip
        )
        .is_empty());
}

#[test]
fn overwrite_copies_local_over_remote_and_records_local() {
    let r = resolver();
    let plan = r.resolve_conflict(
        &meta("/l/a", 1, 1, HASH_A),
        &meta("/r/a", 200, 200, HASH_B),
        &ConflictResolution::Overwrite,
    );
    assert_eq!(plan, vec![copy("/l/a", "/r/a"), record("/l/a")]);
}

#[test]
fn keep_renames_remote_before_copying() {
    let plan = ConflictResolver::plan_resolution(
        &meta("/l/a", 1, 1, HASH_A),
        &meta("/r/a", 200, 200, HASH_B),
        &ConflictResolution::Keep,
        "20250314-092653",
    );
    assert_eq!(
        plan,
        vec![
            ResolveStep::RenameFile {
                from: "/r/a".to_string(),
                to: "/r/a.conflict.20250314-092653".to_string()
            },
            copy("/l/a", "/r/a"),
            record("/l/a"),
        ]
    );
}

#[test]
fn keep_stamps_the_artifact_with_the_local_time() {
    let r = resolver();
    let plan = r.resolve_conflict(
        &meta("/l/a", 1, 1, HASH_A),
        &meta("/r/a", 200, 200, HASH_B),
        &ConflictResolution::Keep,
    );
    assert_eq!(plan.len(), 3);
    match &plan[0] {
        ResolveStep::RenameFile { from, to } => {
            assert_eq!(from, "/r/a");
            let stamp = to.strip_prefix("/r/a.conflict.").unwrap();
            let chars: Vec<char> = stamp.chars().collect();
            assert_eq!(chars.len(), 15);
            for (i, c) in chars.iter().enumerate() {
                if i == 8 {
                    assert_eq!(*c, '-');
                } else {
                    assert!(c.is_ascii_digit());
                }
            }
        }
        other => panic!("unexpected first step {:?}", other),
    }
    assert_eq!(plan[1], copy("/l/a", "/r/a"));
    assert_eq!(plan[2], record("/l/a"));
}

#[test]
fn newest_picks_the_later_replica() {
    let local = meta("/l/a", 1, 100, HASH_A);
    let remote = meta("/r/a", 1, 101, HASH_B);
    let plan =
        ConflictResolver::plan_resolution(&local, &remote, &ConflictResolution::Newest, "");
    assert_eq!(plan, vec![copy("/r/a", "/l/a"), record("/r/a")]);
    let plan =
        ConflictResolver::plan_resolution(&remote, &local, &ConflictResolution::Newest, "");
    assert_eq!(plan, vec![copy("/r/a", "/l/a"), record("/r/a")]);
}

#[test]
fn newest_tie_picks_local() {
    let local = meta("/l/a", 1, 100, HASH_A);
    let remote = meta("/r/a", 9, 100, HASH_B);
    let plan =
        ConflictResolver::plan_resolution(&local, &remote, &ConflictResolution::Newest, "");
    assert_eq!(plan, vec![copy("/l/a", "/r/a"), record("/l/a")]);
}

#[test]
fn largest_picks_the_bigger_replica() {
    let local = meta("/l/a", 10, 100, HASH_A);
    let remote = meta("/r/a", 11, 50, HASH_B);
    let plan =
        ConflictResolver::plan_resolution(&local, &remote, &ConflictResolution::Largest, "");
    assert_eq!(plan, vec![copy("/r/a", "/l/a"), record("/r/a")]);
    let bigger_local = meta("/l/a", 12, 100, HASH_A);
    let plan = ConflictResolver::plan_resolution(
        &bigger_local,
        &remote,
        &ConflictResolution::Largest,
        "",
    );
    assert_eq!(plan, vec![copy("/l/a", "/r/a"), record("/l/a")]);
}

#[test]
fn largest_tie_picks_local() {
    let local = meta("/l/a", 10, 1, HASH_A);
    let remote = meta("/r/a", 10, 999, HASH_B);
    let plan =
        ConflictResolver::plan_resolution(&local, &remote, &ConflictResolution::Largest, "");
    assert_eq!(plan, vec![copy("/l/a", "/r/a"), record("/l/a")]);
}

#[test]
fn recording_replaces_the_row_of_the_path() {
    let mut r = resolver_with(row("/l/a", 100, HASH_A));
    let written = r.record_sync_state(&meta("/l/a", 7, 150, HASH_B), 1_700_000_123);
    let expected = SyncStateRecord {
        path: "/l/a".to_string(),
        size: 7,
        modified: 150,
        hash: HASH_B.to_string(),
        last_sync: 1_700_000_123,
    };
    assert_eq!(written, expected);
    assert_eq!(r.recorded(&"/l/a".to_string()), Some(&expected));
    assert!(!r.detect_conflict(&meta("/l/a", 7, 150, HASH_B), &meta("/r/a", 7, 151, HASH_B)));
}

#[test]
fn recording_leaves_other_paths_alone() {
    let mut r = resolver_with(row("/l/a", 100, HASH_A));
    r.record_sync_state(&meta("/l/b", 7, 150, HASH_B), 5);
    assert_eq!(r.recorded(&"/l/a".to_string()), Some(&row("/l/a", 100, HASH_A)));
    assert_eq!(r.recorded(&"/l/b".to_string()).unwrap().hash, HASH_B);
    assert!(r.recorded(&"/l/c".to_string()).is_none());
}

#[test]
fn update_sync_state_stamps_the_row_with_the_clock() {
    let mut r = resolver();
    let written = r.update_sync_state(&meta("/l/a", 7, 150, HASH_B));
    assert_eq!(written.path, "/l/a");
    assert_eq!(written.size, 7);
    assert_eq!(written.modified, 150);
    assert_eq!(written.hash, HASH_B);
    assert!(written.last_sync > 1_600_000_000);
    assert_eq!(r.recorded(&"/l/a".to_string()), Some(&written));
}

#[test]
fn overwrite_then_record_ends_the_conflict() {
    let mut r = resolver_with(row("/l/a", 100, HASH_A));
    let local = meta("/l/a", 1, 150, HASH_B);
    let remote = meta("/r/a", 1, 160, HASH_C);
    assert!(r.detect_conflict(&local, &remote));
    let plan = r.resolve_conflict(&local, &remote, &ConflictResolution::Overwrite);
    assert_eq!(plan.last(), Some(&record("/l/a")));
    r.record_sync_state(&local, 170);
    assert_eq!(r.recorded(&"/l/a".to_string()).unwrap().hash, HASH_B);
    let remote_after = meta("/r/a", 1, 165, HASH_B);
    assert!(!r.detect_conflict(&local, &remote_after));
}

#[test]
fn a_carried_out_resolution_records_the_winner() {
    let mut r = resolver_with(row("/l/a", 100, HASH_A));
    let local = meta("/l/a", 1, 150, HASH_B);
    let fresh = meta("/l/a", 1, 150, HASH_B);
    let written = r.conclude_resolution(&local, &Ok(fresh)).unwrap();
    assert_eq!(written.path, "/l/a");
    assert_eq!(written.hash, HASH_B);
    assert_eq!(written.modified, 150);
    assert!(written.last_sync > 1_600_000_000);
    assert_eq!(r.recorded(&"/l/a".to_string()), Some(&written));
}

#[test]
fn a_remote_winner_is_recorded_under_its_own_path() {
    let mut r = resolver();
    let local = meta("/l/a", 1, 100, HASH_A);
    let fresh_remote = meta("/r/a", 1, 200, HASH_B);
    r.conclude_resolution(&local, &Ok(fresh_remote)).unwrap();
    assert!(r.recorded(&"/l/a".to_string()).is_none());
    assert_eq!(r.recorded(&"/r/a".to_string()).unwrap().hash, HASH_B);
}

#[test]
fn a_failed_resolution_records_nothing() {
    let mut r = resolver_with(row("/l/a", 100, HASH_A));
    let local = meta("/l/a", 1, 150, HASH_B);
    let result = r.conclude_resolution(&local, &Err("Permission denied (os error 13)".to_string()));
    assert_eq!(
        result,
        Err(SyncError::ResolutionFailed {
            path: "/l/a".to_string(),
            cause: "Permission denied (os error 13)".to_string()
        })
    );
    assert_eq!(r.recorded(&"/l/a".to_string()), Some(&row("/l/a", 100, HASH_A)));
    assert!(r.recorded(&"/l/b".to_string()).is_none());
}

#[test]
fn store_put_inserts_or_replaces() {
    let mut store = SyncStateStore::new();
    assert!(store.is_empty());
    assert_eq!(store.len(), 0);
    store.put(row("/l/a", 1, HASH_A));
    store.put(row("/l/b", 2, HASH_B));
    assert_eq!(store.len(), 2);
    store.put(row("/l/a", 3, HASH_C));
    assert_eq!(store.len(), 2);
    assert!(!store.is_empty());
    assert_eq!(store.get(&"/l/a".to_string()), Some(&row("/l/a", 3, HASH_C)));
    assert_eq!(store.get(&"/l/b".to_string()), Some(&row("/l/b", 2, HASH_B)));
    assert_eq!(store.get(&"/l/c".to_string()), None);
}

#[test]
fn store_keys_are_case_sensitive() {
    let mut store = SyncStateStore::new();
    store.put(row("/l/A", 1, HASH_A));
    assert_eq!(store.get(&"/l/a".to_string()), None);
    store.put(row("/l/a", 2, HASH_B));
    assert_eq!(store.len(), 2);
}

#[test]
fn errors_in_words() {
    assert_eq!(
        SyncError::Io { path: "/l/a".to_string(), cause: "gone".to_string() }.message(),
        "I/O error on /l/a: gone"
    );
    assert_eq!(SyncError::StoreUnavailable.message(), "Sync state store is unavailable");
    assert_eq!(
        SyncError::ResolutionFailed { path: "/l/a".to_string(), cause: "busy".to_string() }
            .message(),
        "Failed to resolve conflict for /l/a: busy"
    );
    assert_eq!(SyncError::WatchSourceLost.message(), "File watcher disconnected");
    assert_eq!(
        SyncError::TransferFailed { stderr: "exit 23".to_string() }.message(),
        "Rsync command failed: exit 23"
    );
}

#[test]
fn only_a_failed_transfer_ends_the_run() {
    assert!(SyncError::StoreUnavailable.contained());
    assert!(SyncError::WatchSourceLost.contained());
    assert!(SyncError::Io { path: "/l/a".to_string(), cause: "gone".to_string() }.contained());
    assert!(SyncError::ResolutionFailed { path: "/l/a".to_string(), cause: "busy".to_string() }
        .contained());
    assert!(!SyncError::TransferFailed { stderr: "rsync: failed".to_string() }.contained());
}
