use ugnassync::config::{NasConfig, SyncProfile, SyncType};
use ugnassync::error::SyncError;
use ugnassync::watch::{DebounceState, WatchAction, WatchInput, WatchManager, TICK_SECONDS};

const WAIT: Result<WatchAction, SyncError> = Ok(WatchAction::Wait);
const DISPATCH: Result<WatchAction, SyncError> = Ok(WatchAction::Dispatch);
const LOST: Result<WatchAction, SyncError> = Err(SyncError::WatchSourceLost);

const SECOND: u64 = 1_000_000_000;

fn profile(exclude: &[&str], debounce_seconds: u64) -> SyncProfile {
    SyncProfile {
        name: "docs".to_string(),
        local_path: "/home/user/docs".to_string(),
        remote_path: "/volume1/docs".to_string(),
        sync_type: SyncType::Mirror,
        enabled: true,
        exclude: exclude.iter().map(|s| s.to_string()).collect(),
        watch_mode: true,
        debounce_seconds,
        conflict_resolution: None,
        use_smb_mount: false,
    }
}

fn changed(paths: &[&str]) -> WatchInput {
    WatchInput::Changed { paths: paths.iter().map(|s| s.to_string()).collect() }
}

fn tick(seconds: u64) -> WatchInput {
    WatchInput::Tick { now: seconds * SECOND }
}

fn feed(
    state: &mut DebounceState,
    profile: &SyncProfile,
    inputs: &[WatchInput],
) -> Vec<Result<WatchAction, SyncError>> {
    inputs.iter().map(|i| WatchManager::handle_watch_event(state, profile, i)).collect()
}

#[test]
fn test_is_excluded() {
    let path = "/home/user/test/.git/config";
    let exclude = vec![".git".to_string(), "*.tmp".to_string()];

    assert!(WatchManager::is_excluded(path, &exclude));
}

#[test]
fn test_is_not_excluded() {
    let path = "/home/user/test/file.txt";
    let exclude = vec![".git".to_string(), "*.tmp".to_string()];

    assert!(!WatchManager::is_excluded(path, &exclude));
}

#[test]
fn patterns_are_literal_text_not_globs() {
    let exclude = vec!["*.tmp".to_string()];
    assert!(!WatchManager::is_excluded("/home/user/file.tmp", &exclude));
    assert!(WatchManager::is_excluded("/home/user/*.tmp", &exclude));
}

#[test]
fn any_pattern_excludes() {
    let exclude = vec!["node_modules".to_string(), ".cache".to_string()];
    assert!(WatchManager::is_excluded("/p/.cache/x", &exclude));
    assert!(WatchManager::is_excluded("/p/node_modules/y", &exclude));
    assert!(!WatchManager::is_excluded("/p/src/z", &exclude));
}

#[test]
fn no_pattern_excludes_nothing_and_the_empty_pattern_everything() {
    assert!(!WatchManager::is_excluded("/p/a", &[]));
    assert!(WatchManager::is_excluded("/p/a", &["".to_string()]));
    assert!(!WatchManager::is_excluded("", &["a".to_string()]));
}

#[test]
fn pattern_at_the_very_end_or_start_is_found() {
    assert!(WatchManager::is_excluded("/p/a.swp", &[".swp".to_string()]));
    assert!(WatchManager::is_excluded("tmp/a", &["tmp".to_string()]));
    assert!(!WatchManager::is_excluded("/p/a.sw", &[".swp".to_string()]));
}

#[test]
fn ticks_come_once_a_second() {
    assert_eq!(TICK_SECONDS, 1);
}

#[test]
fn a_session_starts_idle() {
    let s = DebounceState::new(7 * SECOND);
    assert_eq!(
        s,
        DebounceState { pending: false, last_trigger: 7 * SECOND, in_flight: false, closed: false }
    );
}

#[test]
fn a_change_only_marks_pending() {
    let p = profile(&[], 5);
    let mut s = DebounceState::new(0);
    let action = WatchManager::handle_watch_event(&mut s, &p, &changed(&["/home/user/docs/a"]));
    assert_eq!(action, WAIT);
    assert!(s.pending);
    assert_eq!(s.last_trigger, 0);
    assert!(!s.in_flight);
}

#[test]
fn an_excluded_change_does_not_mark_pending() {
    let p = profile(&[".git", "*.tmp"], 5);
    let mut s = DebounceState::new(0);
    let action =
        WatchManager::handle_watch_event(&mut s, &p, &changed(&["/home/user/docs/.git/index"]));
    assert_eq!(action, WAIT);
    assert!(!s.pending);
}

#[test]
fn one_excluded_path_suppresses_the_whole_notification() {
    let p = profile(&[".git"], 5);
    let mut s = DebounceState::new(0);
    WatchManager::handle_watch_event(
        &mut s,
        &p,
        &changed(&["/home/user/docs/a.txt", "/home/user/docs/.git/index"]),
    );
    assert!(!s.pending);
}

#[test]
fn an_excluded_change_leaves_an_earlier_pending_mark() {
    let p = profile(&[".git"], 5);
    let mut s = DebounceState::new(0);
    WatchManager::handle_watch_event(&mut s, &p, &changed(&["/home/user/docs/a.txt"]));
    WatchManager::handle_watch_event(&mut s, &p, &changed(&["/home/user/docs/.git/index"]));
    assert!(s.pending);
}

#[test]
fn a_notification_without_paths_marks_pending() {
    let p = profile(&[".git"], 5);
    let mut s = DebounceState::new(0);
    WatchManager::handle_watch_event(&mut s, &p, &changed(&[]));
    assert!(s.pending);
}

#[test]
fn a_tick_without_pending_change_waits() {
    let p = profile(&[], 5);
    let mut s = DebounceState::new(0);
    assert_eq!(WatchManager::handle_watch_event(&mut s, &p, &tick(100)), WAIT);
    assert_eq!(s, DebounceState::new(0));
}

#[test]
fn dispatch_waits_for_the_quiet_period() {
    let p = profile(&[], 5);
    let mut s = DebounceState::new(0);
    let actions = feed(&mut s, &p, &[changed(&["/a"]), tick(1), tick(4)]);
    assert_eq!(actions, vec![WAIT, WAIT, WAIT]);
    let just_before = WatchInput::Tick { now: 5 * SECOND - 1 };
    assert_eq!(WatchManager::handle_watch_event(&mut s, &p, &just_before), WAIT);
    assert_eq!(WatchManager::handle_watch_event(&mut s, &p, &tick(5)), DISPATCH);
    assert_eq!(
        s,
        DebounceState { pending: false, last_trigger: 5 * SECOND, in_flight: true, closed: false }
    );
}

#[test]
fn no_second_dispatch_within_the_quiet_period() {
    let p = profile(&[], 5);
    let mut s = DebounceState::new(0);
    let actions = feed(
        &mut s,
        &p,
        &[
            changed(&["/a"]),
            tick(5),
            WatchInput::DispatchDone,
            changed(&["/b"]),
            tick(6),
            changed(&["/c"]),
            tick(9),
            tick(10),
        ],
    );
    assert_eq!(
        actions,
        vec![
            WAIT,
            DISPATCH,
            WAIT,
            WAIT,
            WAIT,
            WAIT,
            WAIT,
            DISPATCH,
        ]
    );
}

#[test]
fn a_steady_stream_of_changes_still_dispatches_at_the_cadence() {
    let p = profile(&[], 3);
    let mut s = DebounceState::new(0);
    let mut dispatched_at: Vec<u64> = Vec::new();
    for second in 1..=10u64 {
        WatchManager::handle_watch_event(&mut s, &p, &changed(&["/a"]));
        if WatchManager::handle_watch_event(&mut s, &p, &tick(second)) == DISPATCH {
            dispatched_at.push(second);
            WatchManager::handle_watch_event(&mut s, &p, &WatchInput::DispatchDone);
        }
    }
    assert_eq!(dispatched_at, vec![3, 6, 9]);
}

#[test]
fn no_dispatch_while_one_is_running() {
    let p = profile(&[], 1);
    let mut s = DebounceState::new(0);
    let actions =
        feed(&mut s, &p, &[changed(&["/a"]), tick(1), changed(&["/b"]), tick(5), tick(50)]);
    assert_eq!(
        actions,
        vec![
            WAIT,
            DISPATCH,
            WAIT,
            WAIT,
            WAIT,
        ]
    );
    assert!(s.pending);
    assert!(s.in_flight);
    assert_eq!(
        WatchManager::handle_watch_event(&mut s, &p, &WatchInput::DispatchDone),
        WAIT
    );
    assert_eq!(WatchManager::handle_watch_event(&mut s, &p, &tick(51)), DISPATCH);
}

#[test]
fn a_clock_that_went_back_counts_as_no_time_passed() {
    let p = profile(&[], 1);
    let mut s = DebounceState::new(10 * SECOND);
    let actions = feed(&mut s, &p, &[changed(&["/a"]), tick(3)]);
    assert_eq!(actions, vec![WAIT, WAIT]);
    let p0 = profile(&[], 0);
    assert_eq!(WatchManager::handle_watch_event(&mut s, &p0, &tick(3)), DISPATCH);
}

#[test]
fn the_largest_quiet_period_does_not_overflow() {
    let p = profile(&[], u64::MAX);
    let mut s = DebounceState::new(0);
    let actions = feed(&mut s, &p, &[changed(&["/a"]), WatchInput::Tick { now: u64::MAX }]);
    assert_eq!(actions, vec![WAIT, WAIT]);
}

#[test]
fn disconnection_ends_the_session() {
    let p = profile(&[], 1);
    let mut s = DebounceState::new(0);
    let actions = feed(
        &mut s,
        &p,
        &[changed(&["/a"]), WatchInput::Disconnected, tick(10), changed(&["/b"]), tick(20)],
    );
    assert_eq!(
        actions,
        vec![
            WAIT,
            LOST,
            LOST,
            LOST,
            LOST,
        ]
    );
    assert!(s.closed);
}

#[test]
fn manager_holds_an_engine_for_the_target() {
    let nas = NasConfig {
        host: "nas.local".to_string(),
        port: 22,
        username: "backup".to_string(),
        password: Some("secret".to_string()),
        key_path: None,
        smb: None,
    };
    let manager = WatchManager::new(nas.clone(), Some("/home/user"));
    assert_eq!(manager.sync_engine.nas_config.host, "nas.local");
    assert!(manager.sync_engine.conflict_resolver.is_some());
    let degraded = WatchManager::new(nas, None);
    assert!(degraded.sync_engine.conflict_resolver.is_none());
}
