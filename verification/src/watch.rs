//! The change-watch coordinator of one profile.
//!
//! A watch session is fed what happens: a change notification, a tick of the
//! clock, the end of a sync, the loss of the notification source. It answers
//! each with what to do: wait, or start a sync. Changes are only noted; a sync
//! starts at a tick, once the quiet period since the last start has passed
//! and no sync is running. The loss of the source ends the session.
//!
//! Times are nanoseconds on a clock that does not go back, such as the time
//! since the session began. Should the clock go back all the same, no time
//! counts as passed.

use crate::config::{NasConfig, SyncProfile};
use crate::conflict::state_file_below;
use crate::error::{SyncError, SyncErrorView};
use crate::lists::texts_of;
use crate::store::RecordView;
use crate::sync::SyncEngine;
use crate::text::{chars_of, contains_in, is_substring};
use vstd::prelude::*;

verus! {

/// The state of a watch session.
#[derive(Debug, Clone, Copy, PartialEq, Eq, Structural)]
pub struct DebounceState {
    /// A change has been noted that no sync has picked up yet.
    pub pending: bool,
    /// When the last sync was started, or the session, if none was.
    pub last_trigger: u64,
    /// A sync that this session started is still running.
    pub in_flight: bool,
    /// The notification source is gone; the session is over.
    pub closed: bool,
}

/// What happens in a watch session.
#[derive(Debug, Clone, PartialEq, Eq)]
pub enum WatchInput {
    /// The paths of one change notification.
    Changed { paths: Vec<String> },
    /// The regular tick, at the time `now`.
    Tick { now: u64 },
    /// The sync that the session started has ended.
    DispatchDone,
    /// The notification source is gone.
    Disconnected,
}

/// A `WatchInput` with its paths as character sequences.
pub enum WatchEvent {
    Changed { paths: Seq<Seq<char>> },
    Tick { now: u64 },
    DispatchDone,
    Disconnected,
}

impl View for WatchInput {
    type V = WatchEvent;

    open spec fn view(&self) -> WatchEvent {
        match *self {
            WatchInput::Changed { paths } => WatchEvent::Changed { paths: texts_of(paths@) },
            WatchInput::Tick { now } => WatchEvent::Tick { now },
            WatchInput::DispatchDone => WatchEvent::DispatchDone,
            WatchInput::Disconnected => WatchEvent::Disconnected,
        }
    }
}

/// What the session asks for in answer to an input.
#[derive(Debug, Clone, Copy, PartialEq, Eq, Structural)]
pub enum WatchAction {
    /// Nothing: go on listening.
    Wait,
    /// Start a sync of the profile now, and report its end with
    /// `DispatchDone`.
    Dispatch,
}

/// The seconds between two ticks that a session expects.
pub const TICK_SECONDS: u64 = 1;

/// `path` holds one of `patterns` as a literal piece of text.
pub open spec fn excluded(path: Seq<char>, patterns: Seq<Seq<char>>) -> bool {
    exists|i: int| 0 <= i < patterns.len() && is_substring(#[trigger] patterns[i], path)
}

/// None of the paths of a notification is excluded.
pub open spec fn passes_filter(paths: Seq<Seq<char>>, patterns: Seq<Seq<char>>) -> bool {
    forall|i: int| 0 <= i < paths.len() ==> !excluded(#[trigger] paths[i], patterns)
}

/// The quiet period in nanoseconds.
pub open spec fn quiet_nanos(debounce_seconds: u64) -> int {
    debounce_seconds * 1_000_000_000
}

/// The time from `last` to `now`, and none where `now` is the earlier.
pub open spec fn elapsed(now: u64, last: u64) -> int {
    if now >= last {
        now - last
    } else {
        0
    }
}

/// A sync is due at `now`: a change is pending, no sync is running, and the
/// quiet period since the last start has passed.
pub open spec fn is_due(s: DebounceState, debounce_seconds: u64, now: u64) -> bool {
    s.pending && !s.in_flight && elapsed(now, s.last_trigger) >= quiet_nanos(debounce_seconds)
}

/// The state at the start of a session that begins at `now`.
pub open spec fn initial_state(now: u64) -> DebounceState {
    DebounceState { pending: false, last_trigger: now, in_flight: false, closed: false }
}

/// What one input makes of the state `s`, and the answer to it. There is no
/// answer once the session is over.
pub open spec fn step(
    s: DebounceState,
    patterns: Seq<Seq<char>>,
    debounce_seconds: u64,
    input: WatchEvent,
) -> (DebounceState, Option<WatchAction>) {
    if s.closed {
        (s, None)
    } else {
        match input {
            WatchEvent::Changed { paths } => if passes_filter(paths, patterns) {
                (DebounceState { pending: true, ..s }, Some(WatchAction::Wait))
            } else {
                (s, Some(WatchAction::Wait))
            },
            WatchEvent::Tick { now } => if is_due(s, debounce_seconds, now) {
                (
                    DebounceState { pending: false, last_trigger: now, in_flight: true, ..s },
                    Some(WatchAction::Dispatch),
                )
            } else {
                (s, Some(WatchAction::Wait))
            },
            WatchEvent::DispatchDone => (
                DebounceState { in_flight: false, ..s },
                Some(WatchAction::Wait),
            ),
            WatchEvent::Disconnected => (DebounceState { closed: true, ..s }, None),
        }
    }
}

impl DebounceState {
    /// The state of a session that begins at `now`: nothing pending, and the
    /// quiet period counts from `now`.
    pub fn new(now: u64) -> (s: DebounceState)
        ensures
            s == initial_state(now),
    {
        DebounceState { pending: false, last_trigger: now, in_flight: false, closed: false }
    }
}

/// Watches profiles and starts their syncs.
pub struct WatchManager {
    pub sync_engine: SyncEngine,
}

impl WatchManager {
    /// A manager whose syncs go to the target `nas_config`.
    pub fn new(nas_config: NasConfig, home: Option<&str>) -> (manager: WatchManager)
        ensures
            manager.sync_engine.nas_config == nas_config,
            manager.sync_engine.conflict_resolver is Some == home is Some,
            manager.sync_engine.conflict_resolver matches Some(resolver) ==> resolver.records()
                == Map::<Seq<char>, RecordView>::empty() && resolver.state_file()
                == state_file_below(home->0@),
    {
        WatchManager { sync_engine: SyncEngine::new(nas_config, home) }
    }

    /// Whether `path` holds one of `exclude_patterns` as a literal piece of
    /// text.
    pub fn is_excluded(path: &str, exclude_patterns: &[String]) -> (r: bool)
        ensures
            r == excluded(path@, texts_of(exclude_patterns@)),
    {
        let hay = chars_of(path);
        let ghost patterns = texts_of(exclude_patterns@);
        assert(hay@.subrange(0, hay@.len() as int) == hay@);
        let mut i: usize = 0;
        while i < exclude_patterns.len()
            invariant
                i <= exclude_patterns.len(),
                hay@ == path@,
                patterns == texts_of(exclude_patterns@),
                forall|k: int| 0 <= k < i ==> !is_substring(#[trigger] patterns[k], path@),
            decreases exclude_patterns.len() - i,
        {
            let pattern = chars_of(exclude_patterns[i].as_str());
            assert(patterns[i as int] == pattern@);
            assert(hay@.subrange(0, hay@.len() as int) == hay@);
            if contains_in(&hay, 0, hay.len(), &pattern) {
                return true;
            }
            i += 1;
        }
        false
    }

    /// Whether none of `paths` is excluded.
    fn all_pass(paths: &Vec<String>, exclude_patterns: &[String]) -> (r: bool)
        ensures
            r == passes_filter(texts_of(paths@), texts_of(exclude_patterns@)),
    {
        let ghost all = texts_of(paths@);
        let mut i: usize = 0;
        while i < paths.len()
            invariant
                i <= paths.len(),
                all == texts_of(paths@),
                forall|k: int|
                    0 <= k < i ==> !excluded(#[trigger] all[k], texts_of(exclude_patterns@)),
            decreases paths.len() - i,
        {
            assert(all[i as int] == paths@[i as int]@);
            if Self::is_excluded(paths[i].as_str(), exclude_patterns) {
                return false;
            }
            i += 1;
        }
        true
    }

    /// Takes one input of the watch session of `profile`: brings `state` up
    /// to date and answers with what to do, or with `WatchSourceLost` once the
    /// notification source is gone.
    pub fn handle_watch_event(state: &mut DebounceState, profile: &SyncProfile, input: &WatchInput)
        -> (r: Result<WatchAction, SyncError>)
        ensures
            *final(state) == step(
                *old(state),
                texts_of(profile.exclude@),
                profile.debounce_seconds,
                input@,
            ).0,
            match r {
                Ok(action) => step(
                    *old(state),
                    texts_of(profile.exclude@),
                    profile.debounce_seconds,
                    input@,
                ).1 == Some(action),
                Err(e) => step(
                    *old(state),
                    texts_of(profile.exclude@),
                    profile.debounce_seconds,
                    input@,
                ).1 is None && e@ == SyncErrorView::WatchSourceLost,
            },
    {
        if state.closed {
            return Err(SyncError::WatchSourceLost);
        }
        match input {
            WatchInput::Changed { paths } => {
                if Self::all_pass(paths, profile.exclude.as_slice()) {
                    state.pending = true;
                }
                Ok(WatchAction::Wait)
            },
            WatchInput::Tick { now } => {
                let passed: u64 = if *now >= state.last_trigger {
                    *now - state.last_trigger
                } else {
                    0
                };
                let quiet: u128 = (profile.debounce_seconds as u128) * 1_000_000_000u128;
                if state.pending && !state.in_flight && (passed as u128) >= quiet {
                    state.pending = false;
                    state.last_trigger = *now;
                    state.in_flight = true;
                    Ok(WatchAction::Dispatch)
                } else {
                    Ok(WatchAction::Wait)
                }
            },
            WatchInput::DispatchDone => {
                state.in_flight = false;
                Ok(WatchAction::Wait)
            },
            WatchInput::Disconnected => {
                state.closed = true;
                Err(SyncError::WatchSourceLost)
            },
        }
    }
}

// ---------------------------------------------------------------------------
// Sessions as a whole
// ---------------------------------------------------------------------------

/// The state that the inputs `inputs`, taken in order, make of `s`.
pub open spec fn run(
    s: DebounceState,
    patterns: Seq<Seq<char>>,
    debounce_seconds: u64,
    inputs: Seq<WatchEvent>,
) -> DebounceState
    decreases inputs.len(),
{
    if inputs.len() == 0 {
        s
    } else {
        step(
            run(s, patterns, debounce_seconds, inputs.drop_last()),
            patterns,
            debounce_seconds,
            inputs.last(),
        ).0
    }
}

/// The answer to the input at place `i` of a session that starts in `s`.
pub open spec fn action_at(
    s: DebounceState,
    patterns: Seq<Seq<char>>,
    debounce_seconds: u64,
    inputs: Seq<WatchEvent>,
    i: int,
) -> Option<WatchAction> {
    step(
        run(s, patterns, debounce_seconds, inputs.take(i)),
        patterns,
        debounce_seconds,
        inputs[i],
    ).1
}

/// The state after `k + 1` inputs is the step from the state after `k`.
proof fn lemma_run_unfold(
    s: DebounceState,
    patterns: Seq<Seq<char>>,
    debounce_seconds: u64,
    inputs: Seq<WatchEvent>,
    k: int,
)
    requires
        0 <= k < inputs.len(),
    ensures
        run(s, patterns, debounce_seconds, inputs.take(k + 1)) == step(
            run(s, patterns, debounce_seconds, inputs.take(k)),
            patterns,
            debounce_seconds,
            inputs[k],
        ).0,
{
    assert(inputs.take(k + 1).drop_last() =~= inputs.take(k));
    assert(inputs.take(k + 1).last() == inputs[k]);
}

/// An excluded path keeps a notification from marking a change: the state
/// is as before.
pub proof fn lemma_excluded_change_is_ignored(
    s: DebounceState,
    patterns: Seq<Seq<char>>,
    debounce_seconds: u64,
    paths: Seq<Seq<char>>,
    i: int,
)
    requires
        0 <= i < paths.len(),
        excluded(paths[i], patterns),
    ensures
        step(s, patterns, debounce_seconds, WatchEvent::Changed { paths }).0 == s,
        step(s, patterns, debounce_seconds, WatchEvent::Changed { paths }).0.pending == s.pending,
{
}

/// Only a tick starts a sync, and only when a change is pending, no sync is
/// running and the quiet period has passed; the state then remembers the
/// time of the start. Nothing else moves that time.
pub proof fn lemma_dispatch_conditions(
    s: DebounceState,
    patterns: Seq<Seq<char>>,
    debounce_seconds: u64,
    input: WatchEvent,
)
    ensures
        ({
            let (next, action) = step(s, patterns, debounce_seconds, input);
            &&& action == Some(WatchAction::Dispatch) ==> {
                &&& input is Tick
                &&& !s.closed
                &&& s.pending
                &&& !s.in_flight
                &&& elapsed(input->now, s.last_trigger) >= quiet_nanos(debounce_seconds)
                &&& next.last_trigger == input->now
                &&& next.in_flight
                &&& !next.pending
            }
            &&& action != Some(WatchAction::Dispatch) ==> next.last_trigger == s.last_trigger
            &&& !(input is Tick) ==> action != Some(WatchAction::Dispatch)
        }),
{
}

/// With a quiet period that is not zero, the time of the last start never
/// falls back behind a start that has happened.
proof fn lemma_last_trigger_after_dispatch(
    s: DebounceState,
    patterns: Seq<Seq<char>>,
    debounce_seconds: u64,
    inputs: Seq<WatchEvent>,
    i: int,
    k: int,
)
    requires
        0 <= i < k <= inputs.len(),
        debounce_seconds > 0,
        action_at(s, patterns, debounce_seconds, inputs, i) == Some(WatchAction::Dispatch),
    ensures
        inputs[i] is Tick,
        run(s, patterns, debounce_seconds, inputs.take(k)).last_trigger >= inputs[i]->now,
    decreases k - i,
{
    lemma_run_unfold(s, patterns, debounce_seconds, inputs, k - 1);
    if k > i + 1 {
        lemma_last_trigger_after_dispatch(s, patterns, debounce_seconds, inputs, i, k - 1);
        let before = run(s, patterns, debounce_seconds, inputs.take(k - 1));
        lemma_dispatch_conditions(before, patterns, debounce_seconds, inputs[k - 1]);
    }
}

/// Two syncs of a session never start closer together than the quiet
/// period, whatever changes arrive in between and however often the clock
/// ticks: the time from the one start to the other, as the session measures
/// it, is the quiet period at least.
pub proof fn lemma_dispatches_keep_their_distance(
    s: DebounceState,
    patterns: Seq<Seq<char>>,
    debounce_seconds: u64,
    inputs: Seq<WatchEvent>,
    i: int,
    j: int,
)
    requires
        0 <= i < j < inputs.len(),
        action_at(s, patterns, debounce_seconds, inputs, i) == Some(WatchAction::Dispatch),
        action_at(s, patterns, debounce_seconds, inputs, j) == Some(WatchAction::Dispatch),
    ensures
        inputs[i] is Tick,
        inputs[j] is Tick,
        elapsed(inputs[j]->now, inputs[i]->now) >= quiet_nanos(debounce_seconds),
        debounce_seconds > 0 ==> inputs[j]->now - inputs[i]->now >= quiet_nanos(debounce_seconds),
{
    let at_i = run(s, patterns, debounce_seconds, inputs.take(i));
    lemma_dispatch_conditions(at_i, patterns, debounce_seconds, inputs[i]);
    let before = run(s, patterns, debounce_seconds, inputs.take(j));
    lemma_dispatch_conditions(before, patterns, debounce_seconds, inputs[j]);
    if debounce_seconds > 0 {
        lemma_last_trigger_after_dispatch(s, patterns, debounce_seconds, inputs, i, j);
    }
}

/// The first sync of a session starts no sooner than the quiet period after
/// the session began.
pub proof fn lemma_first_dispatch_waits(
    start: u64,
    patterns: Seq<Seq<char>>,
    debounce_seconds: u64,
    inputs: Seq<WatchEvent>,
    j: int,
)
    requires
        0 <= j < inputs.len(),
        action_at(initial_state(start), patterns, debounce_seconds, inputs, j)
            == Some(WatchAction::Dispatch),
        forall|i: int|
            0 <= i < j ==> action_at(initial_state(start), patterns, debounce_seconds, inputs, i)
                != Some(WatchAction::Dispatch),
    ensures
        inputs[j] is Tick,
        elapsed(inputs[j]->now, start) >= quiet_nanos(debounce_seconds),
{
    lemma_last_trigger_kept(initial_state(start), patterns, debounce_seconds, inputs, j);
}

/// As long as no sync starts, the time of the last start stays.
proof fn lemma_last_trigger_kept(
    s: DebounceState,
    patterns: Seq<Seq<char>>,
    debounce_seconds: u64,
    inputs: Seq<WatchEvent>,
    k: int,
)
    requires
        0 <= k <= inputs.len(),
        forall|i: int|
            0 <= i < k ==> action_at(s, patterns, debounce_seconds, inputs, i)
                != Some(WatchAction::Dispatch),
    ensures
        run(s, patterns, debounce_seconds, inputs.take(k)).last_trigger == s.last_trigger,
    decreases k,
{
    if k > 0 {
        lemma_last_trigger_kept(s, patterns, debounce_seconds, inputs, k - 1);
        lemma_run_unfold(s, patterns, debounce_seconds, inputs, k - 1);
        assert(action_at(s, patterns, debounce_seconds, inputs, k - 1) != Some(WatchAction::Dispatch));
    } else {
        assert(inputs.take(0) =~= Seq::<WatchEvent>::empty());
    }
}

/// After a start, the sync counts as running until its end is reported.
proof fn lemma_in_flight_persists(
    s: DebounceState,
    patterns: Seq<Seq<char>>,
    debounce_seconds: u64,
    inputs: Seq<WatchEvent>,
    i: int,
    k: int,
)
    requires
        0 <= i < k <= inputs.len(),
        action_at(s, patterns, debounce_seconds, inputs, i) == Some(WatchAction::Dispatch),
        forall|m: int| i < m < k ==> !((#[trigger] inputs[m]) is DispatchDone),
    ensures
        run(s, patterns, debounce_seconds, inputs.take(k)).in_flight,
    decreases k - i,
{
    lemma_run_unfold(s, patterns, debounce_seconds, inputs, k - 1);
    if k > i + 1 {
        lemma_in_flight_persists(s, patterns, debounce_seconds, inputs, i, k - 1);
        assert(!(inputs[k - 1] is DispatchDone));
    }
}

/// A session never starts a sync while the one it started before is still
/// running: between two starts, the end of the first has been reported.
pub proof fn lemma_one_dispatch_at_a_time(
    s: DebounceState,
    patterns: Seq<Seq<char>>,
    debounce_seconds: u64,
    inputs: Seq<WatchEvent>,
    i: int,
    j: int,
)
    requires
        0 <= i < j < inputs.len(),
        action_at(s, patterns, debounce_seconds, inputs, i) == Some(WatchAction::Dispatch),
        action_at(s, patterns, debounce_seconds, inputs, j) == Some(WatchAction::Dispatch),
    ensures
        exists|k: int| i < k < j && (#[trigger] inputs[k]) is DispatchDone,
{
    if !(exists|k: int| i < k < j && (#[trigger] inputs[k]) is DispatchDone) {
        lemma_in_flight_persists(s, patterns, debounce_seconds, inputs, i, j);
        assert(false);
    }
}

/// Once the notification source is lost the session is over: no later input
/// is answered, and no sync starts.
pub proof fn lemma_disconnection_is_final(
    s: DebounceState,
    patterns: Seq<Seq<char>>,
    debounce_seconds: u64,
    inputs: Seq<WatchEvent>,
    i: int,
    j: int,
)
    requires
        0 <= i < j < inputs.len(),
        inputs[i] is Disconnected,
    ensures
        action_at(s, patterns, debounce_seconds, inputs, i) is None,
        action_at(s, patterns, debounce_seconds, inputs, j) is None,
{
    lemma_closed_persists(s, patterns, debounce_seconds, inputs, i, j);
}

/// After a disconnection the state stays closed.
proof fn lemma_closed_persists(
    s: DebounceState,
    patterns: Seq<Seq<char>>,
    debounce_seconds: u64,
    inputs: Seq<WatchEvent>,
    i: int,
    k: int,
)
    requires
        0 <= i < k <= inputs.len(),
        inputs[i] is Disconnected,
    ensures
        run(s, patterns, debounce_seconds, inputs.take(k)).closed,
    decreases k - i,
{
    lemma_run_unfold(s, patterns, debounce_seconds, inputs, k - 1);
    if k > i + 1 {
        lemma_closed_persists(s, patterns, debounce_seconds, inputs, i, k - 1);
    }
}

} // verus!
