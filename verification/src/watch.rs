use vstd::prelude::*;

use crate::errors::NetworkError;

verus! {

/// The phases of the dev watch loop.  `Debouncing` remembers when the quiet
/// period ends; a change during `Building` is only remembered (coalesced),
/// never run concurrently.
#[derive(Clone, Copy, PartialEq, Eq, Structural, Debug)]
pub enum WatchPhase {
    Idle,
    Debouncing { deadline: u64 },
    Building,
}

/// Which path set changed: the source tree triggers the full pipeline, the
/// environment configuration file a re-parse plus pipeline.  Deleting the
/// configuration file is not an error: the loop falls back to the built-in
/// default environment and keeps watching.
#[derive(Clone, Copy, PartialEq, Eq, Structural, Debug)]
pub enum ChangeKind {
    SourceTree,
    ConfigFile,
    ConfigFileRemoved,
}

/// Everything the loop can be told.  Times are milliseconds on a single
/// monotonic clock.
#[derive(Clone, Copy, PartialEq, Eq, Structural, Debug)]
pub enum WatchEvent {
    Changed { kind: ChangeKind, at: u64 },
    TimerElapsed { now: u64 },
    BuildFinished { now: u64, succeeded: bool },
    CancelRequested,
}

/// What the surrounding process is asked to do after a transition.  Errors
/// are recoverable: a failed build returns the loop to watching, never exits
/// it; only an explicit cancellation stops the loop.
#[derive(Clone, Copy, PartialEq, Eq, Structural, Debug)]
pub enum WatchDirective {
    KeepWatching,
    StartBuild,
    StopLoop,
}

/// In-memory, process-lifetime state of the dev watch loop; constructed on
/// loop start, torn down on loop exit.
pub struct WatchState {
    pub phase: WatchPhase,
    /// A change arrived while a build was running; exactly one rebuild is
    /// owed once the build finishes.
    pub pending: bool,
    /// The quiet period after the last change before a build starts.
    pub debounce_window: u64,
    /// How many builds this loop has started.
    pub builds_started: u64,
}

impl WatchState {
    pub open spec fn wf(&self) -> bool {
        self.builds_started < u64::MAX
    }

    pub fn new_watch(debounce_window: u64) -> (s: WatchState)
        ensures
            s.phase == WatchPhase::Idle,
            !s.pending,
            s.debounce_window == debounce_window,
            s.builds_started == 0,
            s.wf(),
    {
        WatchState {
            phase: WatchPhase::Idle,
            pending: false,
            debounce_window,
            builds_started: 0,
        }
    }
}

/// The transition function of the loop, as a mathematical function: from
/// state and event to next state and directive.
pub open spec fn watch_model(s: WatchState, ev: WatchEvent) -> (WatchState, WatchDirective) {
    match ev {
        WatchEvent::Changed { kind, at } => match s.phase {
            WatchPhase::Idle => (
                WatchState { phase: WatchPhase::Debouncing { deadline: (at + s.debounce_window) as u64 }, ..s },
                WatchDirective::KeepWatching,
            ),
            WatchPhase::Debouncing { .. } => (
                WatchState { phase: WatchPhase::Debouncing { deadline: (at + s.debounce_window) as u64 }, ..s },
                WatchDirective::KeepWatching,
            ),
            WatchPhase::Building => (
                WatchState { pending: true, ..s },
                WatchDirective::KeepWatching,
            ),
        },
        WatchEvent::TimerElapsed { now } => match s.phase {
            WatchPhase::Debouncing { deadline } => if now >= deadline {
                (
                    WatchState {
                        phase: WatchPhase::Building,
                        builds_started: if s.builds_started < u64::MAX {
                            (s.builds_started + 1) as u64
                        } else {
                            u64::MAX
                        },
                        ..s
                    },
                    WatchDirective::StartBuild,
                )
            } else {
                (s, WatchDirective::KeepWatching)
            },
            _ => (s, WatchDirective::KeepWatching),
        },
        WatchEvent::BuildFinished { now, succeeded: _ } => match s.phase {
            WatchPhase::Building => if s.pending {
                (
                    WatchState {
                        phase: WatchPhase::Debouncing { deadline: (now + s.debounce_window) as u64 },
                        pending: false,
                        ..s
                    },
                    WatchDirective::KeepWatching,
                )
            } else {
                (WatchState { phase: WatchPhase::Idle, ..s }, WatchDirective::KeepWatching)
            },
            _ => (s, WatchDirective::KeepWatching),
        },
        WatchEvent::CancelRequested => (s, WatchDirective::StopLoop),
    }
}

/// Feed one event to the loop.  The behaviour is exactly `watch_model`; the
/// overflow preconditions are machine limits (times are milliseconds, so a
/// deadline cannot overflow in practice).
pub fn watch_step(s: &mut WatchState, ev: WatchEvent) -> (d: WatchDirective)
    requires
        ev matches WatchEvent::Changed { at, .. } ==> at + old(s).debounce_window <= u64::MAX,
        ev matches WatchEvent::BuildFinished { now, .. } ==> now + old(s).debounce_window
            <= u64::MAX,
    ensures
        (*final(s), d) == watch_model(*old(s), ev),
{
    match ev {
        WatchEvent::Changed { kind: _, at } => {
            match s.phase {
                WatchPhase::Idle | WatchPhase::Debouncing { .. } => {
                    s.phase = WatchPhase::Debouncing { deadline: at + s.debounce_window };
                },
                WatchPhase::Building => {
                    s.pending = true;
                },
            }
            WatchDirective::KeepWatching
        },
        WatchEvent::TimerElapsed { now } => {
            match s.phase {
                WatchPhase::Debouncing { deadline } => {
                    if now >= deadline {
                        s.phase = WatchPhase::Building;
                        if s.builds_started < u64::MAX {
                            s.builds_started = s.builds_started + 1;
                        }
                        WatchDirective::StartBuild
                    } else {
                        WatchDirective::KeepWatching
                    }
                },
                _ => WatchDirective::KeepWatching,
            }
        },
        WatchEvent::BuildFinished { now, succeeded: _ } => {
            match s.phase {
                WatchPhase::Building => {
                    if s.pending {
                        s.phase = WatchPhase::Debouncing { deadline: now + s.debounce_window };
                        s.pending = false;
                    } else {
                        s.phase = WatchPhase::Idle;
                    }
                },
                _ => (),
            }
            WatchDirective::KeepWatching
        },
        WatchEvent::CancelRequested => WatchDirective::StopLoop,
    }
}

/// Debouncing: two rapid successive edits within the debounce window, then
/// one elapse of the quiet period, start exactly one build — and a stray
/// second timer event starts no second one, since the loop is already
/// building.
pub proof fn lemma_two_edits_one_build(
    s0: WatchState,
    k1: ChangeKind,
    t1: u64,
    k2: ChangeKind,
    t2: u64,
    t3: u64,
    t4: u64,
)
    requires
        s0.phase == WatchPhase::Idle,
        !s0.pending,
        s0.wf(),
        t1 <= t2,
        t2 < t1 + s0.debounce_window,
        t2 + s0.debounce_window <= t3,
        t3 <= t4,
        t1 + s0.debounce_window <= u64::MAX,
        t2 + s0.debounce_window <= u64::MAX,
    ensures
        ({
            let (s1, d1) = watch_model(s0, WatchEvent::Changed { kind: k1, at: t1 });
            let (s2, d2) = watch_model(s1, WatchEvent::Changed { kind: k2, at: t2 });
            let (s3, d3) = watch_model(s2, WatchEvent::TimerElapsed { now: t3 });
            let (s4, d4) = watch_model(s3, WatchEvent::TimerElapsed { now: t4 });
            &&& d1 == WatchDirective::KeepWatching
            &&& d2 == WatchDirective::KeepWatching
            &&& d3 == WatchDirective::StartBuild
            &&& d4 == WatchDirective::KeepWatching
            &&& s4.builds_started == s0.builds_started + 1
            &&& s4.phase == WatchPhase::Building
        }),
{
}

/// A timer firing before the quiet period has elapsed — as it would right
/// after the first of two rapid edits — starts nothing and loses nothing.
pub proof fn lemma_early_timer_is_ignored(s: WatchState, deadline: u64, now: u64)
    requires
        s.phase == (WatchPhase::Debouncing { deadline }),
        now < deadline,
    ensures
        watch_model(s, WatchEvent::TimerElapsed { now }) == ((s, WatchDirective::KeepWatching)),
{
}

/// The loop never stops of its own accord: only an explicit cancellation
/// yields StopLoop, whatever state the loop is in — a failed build included.
pub proof fn lemma_only_cancel_stops(s: WatchState, ev: WatchEvent)
    ensures
        watch_model(s, ev).1 == WatchDirective::StopLoop <==> ev == WatchEvent::CancelRequested,
{
}

/// At most one build runs at a time: a change during Building never starts a
/// build, it is only remembered for after the running one.
pub proof fn lemma_no_concurrent_builds(s: WatchState, kind: ChangeKind, at: u64)
    requires
        s.phase == WatchPhase::Building,
    ensures
        watch_model(s, WatchEvent::Changed { kind, at }).1 == WatchDirective::KeepWatching,
        watch_model(s, WatchEvent::Changed { kind, at }).0.phase == WatchPhase::Building,
        watch_model(s, WatchEvent::Changed { kind, at }).0.pending,
{
}

/// State of one attempt to bring the local test network up: poll a health
/// endpoint until ready or a bounded timeout elapses.  The network itself is
/// a long-lived resource owned by the orchestrator, left running across
/// watch cycles.
pub struct HealthProbe {
    pub deadline: u64,
}

#[derive(Clone, Copy, PartialEq, Eq, Structural, Debug)]
pub enum ProbeDirective {
    Ready,
    PollAgain,
    GiveUp,
}

/// Decide what a health-poll result means.  Health reported before the
/// deadline means the network is up; past the deadline the orchestrator
/// gives up and the run fails with a health-check timeout.
pub fn probe_step(p: &HealthProbe, now: u64, healthy: bool) -> (r: Result<
    ProbeDirective,
    NetworkError,
>)
    ensures
        healthy ==> r == Ok::<ProbeDirective, NetworkError>(ProbeDirective::Ready),
        !healthy && now < p.deadline ==> r == Ok::<ProbeDirective, NetworkError>(
            ProbeDirective::PollAgain,
        ),
        !healthy && now >= p.deadline ==> r == Err::<ProbeDirective, NetworkError>(
            NetworkError::HealthCheckTimeout,
        ),
{
    if healthy {
        Ok(ProbeDirective::Ready)
    } else if now < p.deadline {
        Ok(ProbeDirective::PollAgain)
    } else {
        Err(NetworkError::HealthCheckTimeout)
    }
}

/// The RPC endpoint the pipeline should use: the local test network's
/// endpoint when the environment asks for one, else the configured URL.
pub fn effective_rpc_url(env: &crate::config::Environment, local_url: &String) -> (r: String)
    ensures
        env.network@.run_locally ==> r@ == local_url@,
        !env.network@.run_locally ==> r@ == env.network@.rpc_url,
{
    if env.network.run_locally {
        local_url.clone()
    } else {
        env.network.rpc_url.clone()
    }
}

} // verus!
