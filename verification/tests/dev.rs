use stellar_scaffold::{
    effective_rpc_url, probe_step, ChangeKind, Environment, HealthProbe, MutationPolicy,
    NetworkDescriptor, NetworkError, ProbeDirective, WatchDirective, WatchEvent, WatchPhase,
    WatchState,
};

fn network(run_locally: bool) -> NetworkDescriptor {
    NetworkDescriptor {
        rpc_url: "http://localhost:9000/rpc".to_string(),
        network_passphrase: "Standalone Network ; February 2017".to_string(),
        run_locally,
    }
}

fn env_with(run_locally: bool) -> Environment {
    Environment {
        name: "development".to_string(),
        policy: MutationPolicy::MutationAllowed,
        network: network(run_locally),
        accounts: vec!["alice".to_string()],
        contracts: vec![],
    }
}

#[test]
fn two_rapid_edits_trigger_exactly_one_rebuild() {
    let mut s = WatchState::new_watch(500);
    // two source edits 100 ms apart, well inside the 500 ms window
    let d1 = stellar_scaffold::watch_step(
        &mut s,
        WatchEvent::Changed { kind: ChangeKind::SourceTree, at: 1000 },
    );
    assert_eq!(d1, WatchDirective::KeepWatching);
    let d2 = stellar_scaffold::watch_step(
        &mut s,
        WatchEvent::Changed { kind: ChangeKind::SourceTree, at: 1100 },
    );
    assert_eq!(d2, WatchDirective::KeepWatching);
    // the first edit's timer fires before the (renewed) deadline: ignored
    let d3 = stellar_scaffold::watch_step(&mut s, WatchEvent::TimerElapsed { now: 1500 });
    assert_eq!(d3, WatchDirective::KeepWatching);
    // the quiet period after the second edit elapses: one build starts
    let d4 = stellar_scaffold::watch_step(&mut s, WatchEvent::TimerElapsed { now: 1600 });
    assert_eq!(d4, WatchDirective::StartBuild);
    assert_eq!(s.builds_started, 1);
    assert_eq!(s.phase, WatchPhase::Building);
    // a stray timer while building starts nothing
    let d5 = stellar_scaffold::watch_step(&mut s, WatchEvent::TimerElapsed { now: 1700 });
    assert_eq!(d5, WatchDirective::KeepWatching);
    assert_eq!(s.builds_started, 1);
}

#[test]
fn change_while_building_is_coalesced() {
    let mut s = WatchState::new_watch(500);
    stellar_scaffold::watch_step(
        &mut s,
        WatchEvent::Changed { kind: ChangeKind::SourceTree, at: 0 },
    );
    stellar_scaffold::watch_step(&mut s, WatchEvent::TimerElapsed { now: 500 });
    assert_eq!(s.phase, WatchPhase::Building);
    // three changes land while the build runs: remembered once, no second build
    for at in [600, 610, 620] {
        let d = stellar_scaffold::watch_step(
            &mut s,
            WatchEvent::Changed { kind: ChangeKind::ConfigFile, at },
        );
        assert_eq!(d, WatchDirective::KeepWatching);
        assert_eq!(s.phase, WatchPhase::Building);
    }
    assert!(s.pending);
    // the build finishing re-debounces the pending change
    let d = stellar_scaffold::watch_step(
        &mut s,
        WatchEvent::BuildFinished { now: 900, succeeded: true },
    );
    assert_eq!(d, WatchDirective::KeepWatching);
    assert_eq!(s.phase, WatchPhase::Debouncing { deadline: 1400 });
    assert!(!s.pending);
    let d = stellar_scaffold::watch_step(&mut s, WatchEvent::TimerElapsed { now: 1400 });
    assert_eq!(d, WatchDirective::StartBuild);
    assert_eq!(s.builds_started, 2);
}

#[test]
fn failed_build_returns_to_idle_and_loop_survives() {
    let mut s = WatchState::new_watch(500);
    stellar_scaffold::watch_step(
        &mut s,
        WatchEvent::Changed { kind: ChangeKind::ConfigFileRemoved, at: 0 },
    );
    stellar_scaffold::watch_step(&mut s, WatchEvent::TimerElapsed { now: 500 });
    // the build fails: the loop logs and returns to Idle, it never exits
    let d = stellar_scaffold::watch_step(
        &mut s,
        WatchEvent::BuildFinished { now: 800, succeeded: false },
    );
    assert_eq!(d, WatchDirective::KeepWatching);
    assert_eq!(s.phase, WatchPhase::Idle);
    // only an explicit cancellation stops it
    let d = stellar_scaffold::watch_step(&mut s, WatchEvent::CancelRequested);
    assert_eq!(d, WatchDirective::StopLoop);
}

#[test]
fn environments_toml_change_retriggers_with_new_network() {
    // a configuration edit is watched exactly like a source edit, and the
    // re-parsed environment carries the new endpoint
    let mut s = WatchState::new_watch(500);
    let d = stellar_scaffold::watch_step(
        &mut s,
        WatchEvent::Changed { kind: ChangeKind::ConfigFile, at: 10 },
    );
    assert_eq!(d, WatchDirective::KeepWatching);
    let d = stellar_scaffold::watch_step(&mut s, WatchEvent::TimerElapsed { now: 510 });
    assert_eq!(d, WatchDirective::StartBuild);

    let env = env_with(false);
    let local = "http://localhost:8000/rpc".to_string();
    assert_eq!(effective_rpc_url(&env, &local), "http://localhost:9000/rpc");
}

#[test]
fn run_locally_uses_local_network_endpoint() {
    let env = env_with(true);
    let local = "http://localhost:8000/rpc".to_string();
    assert_eq!(effective_rpc_url(&env, &local), "http://localhost:8000/rpc");
}

#[test]
fn health_probe_ready_poll_and_timeout() {
    let probe = HealthProbe { deadline: 5000 };
    assert_eq!(probe_step(&probe, 100, true), Ok(ProbeDirective::Ready));
    assert_eq!(probe_step(&probe, 100, false), Ok(ProbeDirective::PollAgain));
    assert_eq!(probe_step(&probe, 4999, false), Ok(ProbeDirective::PollAgain));
    assert_eq!(
        probe_step(&probe, 5000, false),
        Err(NetworkError::HealthCheckTimeout)
    );
    // healthy exactly at the deadline still counts as up
    assert_eq!(probe_step(&probe, 5000, true), Ok(ProbeDirective::Ready));
}
