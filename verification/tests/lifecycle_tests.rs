use backend_supervisor::lifecycle::{
    finish_start, finish_stop, get_backend_status, start_backend, stop_backend, BackendState,
    KillOutcome, Liveness, SpawnOutcome, StartError, StartReport, StartStep, StopError, StopStep,
};
use backend_supervisor::platform::{
    BuildMode, BundledBinary, CpuArch, LaunchPlan, OsFamily, UnsupportedPlatform,
};
use backend_supervisor::store::ProcessStore;

fn found() -> Result<String, String> {
    Ok("/opt/app/resources".to_string())
}

fn missing() -> Result<String, String> {
    Err("unknown path".to_string())
}

fn started(handle: u32) -> ProcessStore<u32> {
    let mut store: ProcessStore<u32> = ProcessStore::new();
    let report = finish_start(&mut store, SpawnOutcome::Spawned(handle));
    assert_eq!(report, StartReport { result: Ok(()), surplus: None });
    store
}

#[test]
fn start_on_an_empty_store_asks_for_a_launch() {
    let store: ProcessStore<u32> = ProcessStore::new();
    let step =
        start_backend(&store, OsFamily::MacOs, CpuArch::Aarch64, BuildMode::Production, &found());
    assert_eq!(step, StartStep::Launch(LaunchPlan::Bundled(BundledBinary::Aarch64AppleDarwin)));
    assert_eq!(step.result(), None);
    assert_eq!(
        start_backend(&store, OsFamily::Linux, CpuArch::X86_64, BuildMode::Development, &found()),
        StartStep::Launch(LaunchPlan::Development)
    );
    assert!(store.is_unused());
}

#[test]
fn start_on_an_unsupported_platform_fails_with_a_description() {
    let store: ProcessStore<u32> = ProcessStore::new();
    let step =
        start_backend(&store, OsFamily::Other, CpuArch::X86_64, BuildMode::Production, &found());
    let unsupported = UnsupportedPlatform { os: OsFamily::Other, arch: CpuArch::X86_64 };
    assert_eq!(step, StartStep::Fail(StartError::Unsupported(unsupported)));
    assert_eq!(step.result(), Some(Err(StartError::Unsupported(unsupported))));
    assert_eq!(
        StartError::Unsupported(unsupported).message(),
        "Unsupported platform other/x86_64: no bundled server binary"
    );
    assert!(store.is_unused());
}

#[test]
fn missing_resource_directory_fails_a_production_start() {
    let store: ProcessStore<u32> = ProcessStore::new();
    let step =
        start_backend(&store, OsFamily::Linux, CpuArch::X86_64, BuildMode::Production, &missing());
    let error = StartError::ResourceDirectory { cause: "unknown path".to_string() };
    assert_eq!(error.message(), "Failed to resolve resource directory: unknown path");
    assert_eq!(step, StartStep::Fail(StartError::ResourceDirectory {
        cause: "unknown path".to_string()
    }));
    assert_eq!(step.result(), Some(Err(error)));
    assert!(store.is_unused());
    assert_eq!(store.peek(), None);
}

#[test]
fn missing_resource_directory_is_reported_before_an_unsupported_platform() {
    let store: ProcessStore<u32> = ProcessStore::new();
    for os in [OsFamily::MacOs, OsFamily::Windows, OsFamily::Linux, OsFamily::Other] {
        for arch in [CpuArch::Aarch64, CpuArch::X86_64, CpuArch::Other] {
            let step = start_backend(&store, os, arch, BuildMode::Production, &missing());
            assert_eq!(
                step.result(),
                Some(Err(StartError::ResourceDirectory { cause: "unknown path".to_string() }))
            );
        }
    }
}

#[test]
fn development_start_does_not_need_the_resource_directory() {
    let store: ProcessStore<u32> = ProcessStore::new();
    assert_eq!(
        start_backend(&store, OsFamily::Other, CpuArch::Other, BuildMode::Development, &missing()),
        StartStep::Launch(LaunchPlan::Development)
    );
}

#[test]
fn start_while_running_is_a_successful_no_op() {
    let store = started(11);
    let step =
        start_backend(&store, OsFamily::Linux, CpuArch::X86_64, BuildMode::Production, &found());
    assert_eq!(step, StartStep::AlreadyRunning);
    assert_eq!(step.result(), Some(Ok(())));
    assert_eq!(
        start_backend(&store, OsFamily::Other, CpuArch::Other, BuildMode::Production, &found()),
        StartStep::AlreadyRunning
    );
    assert_eq!(
        start_backend(&store, OsFamily::Linux, CpuArch::X86_64, BuildMode::Production, &missing()),
        StartStep::AlreadyRunning
    );
    assert_eq!(store.peek(), Some(&11));
}

#[test]
fn start_then_status_is_running() {
    let mut store = started(11);
    assert_eq!(store.peek(), Some(&11));
    assert_eq!(
        get_backend_status(&mut store, Some(Liveness::Alive)),
        (BackendState::Running, None)
    );
    assert_eq!(store.peek(), Some(&11));
}

#[test]
fn stop_then_status_is_stopped() {
    let mut store = started(11);
    let step = stop_backend(&mut store);
    assert_eq!(step, StopStep::Terminate(11));
    assert_eq!(step.result(), None);
    assert_eq!(finish_stop(KillOutcome::Killed), Ok(()));
    assert_eq!(get_backend_status(&mut store, None), (BackendState::Stopped, None));
    assert_eq!(
        get_backend_status(&mut store, Some(Liveness::Alive)),
        (BackendState::Stopped, None)
    );
}

#[test]
fn stop_without_a_process_succeeds_and_leaves_stopped() {
    let mut store: ProcessStore<u32> = ProcessStore::new();
    assert_eq!(get_backend_status(&mut store, None), (BackendState::NotStarted, None));
    let step = stop_backend(&mut store);
    assert_eq!(step, StopStep::NotRunning);
    assert_eq!(step.result(), Some(Ok(())));
    assert_eq!(get_backend_status(&mut store, None), (BackendState::Stopped, None));
    assert_eq!(stop_backend(&mut store).result(), Some(Ok(())));
    assert_eq!(get_backend_status(&mut store, None), (BackendState::Stopped, None));
}

#[test]
fn external_exit_is_reported_as_stopped() {
    let mut store = started(11);
    assert_eq!(
        get_backend_status(&mut store, Some(Liveness::Alive)),
        (BackendState::Running, None)
    );
    assert_eq!(
        get_backend_status(&mut store, Some(Liveness::Exited)),
        (BackendState::Stopped, Some(11))
    );
    assert!(!store.is_occupied());
    assert_eq!(get_backend_status(&mut store, None), (BackendState::Stopped, None));
    assert_eq!(
        get_backend_status(&mut store, Some(Liveness::Alive)),
        (BackendState::Stopped, None)
    );
}

#[test]
fn start_after_observed_exit_asks_for_a_launch() {
    let mut store = started(1);
    assert_eq!(
        get_backend_status(&mut store, Some(Liveness::Exited)),
        (BackendState::Stopped, Some(1))
    );
    let step =
        start_backend(&store, OsFamily::Linux, CpuArch::X86_64, BuildMode::Production, &found());
    assert_eq!(step, StartStep::Launch(LaunchPlan::Bundled(BundledBinary::X86_64UnknownLinuxGnu)));
    let report = finish_start(&mut store, SpawnOutcome::Spawned(2));
    assert_eq!(report, StartReport { result: Ok(()), surplus: None });
    assert_eq!(store.peek(), Some(&2));
    assert_eq!(
        get_backend_status(&mut store, Some(Liveness::Alive)),
        (BackendState::Running, None)
    );
}

#[test]
fn exit_that_no_status_call_has_seen_keeps_the_process_held() {
    let store = started(1);
    assert_eq!(
        start_backend(&store, OsFamily::Linux, CpuArch::X86_64, BuildMode::Production, &found()),
        StartStep::AlreadyRunning
    );
    assert_eq!(store.peek(), Some(&1));
}

#[test]
fn failed_probe_is_reported_as_unknown_and_keeps_the_process() {
    let mut store = started(11);
    assert_eq!(
        get_backend_status(&mut store, Some(Liveness::CheckFailed)),
        (BackendState::Unknown, None)
    );
    assert_eq!(get_backend_status(&mut store, None), (BackendState::Unknown, None));
    assert_eq!(store.peek(), Some(&11));
}

#[test]
fn state_labels_are_what_the_front_end_polls_for() {
    assert_eq!(BackendState::Running.label(), "running");
    assert_eq!(BackendState::Stopped.label(), "stopped");
    assert_eq!(BackendState::NotStarted.label(), "stopped");
    assert_eq!(BackendState::Unknown.label(), "unknown");
}

#[test]
fn store_never_holds_more_than_one_handle() {
    let mut store: ProcessStore<u32> = ProcessStore::new();
    let mut handed_out: Vec<u32> = Vec::new();
    for handle in 1..=8u32 {
        let report = finish_start(&mut store, SpawnOutcome::Spawned(handle));
        assert_eq!(report.result, Ok(()));
        if let Some(late) = report.surplus {
            handed_out.push(late);
        }
        assert!(store.is_occupied());
        if handle % 4 == 0 {
            if let StopStep::Terminate(taken) = stop_backend(&mut store) {
                handed_out.push(taken);
            }
            assert!(!store.is_occupied());
        } else if handle % 4 == 2 {
            if let (_, Some(exited)) = get_backend_status(&mut store, Some(Liveness::Exited)) {
                handed_out.push(exited);
            }
            assert!(!store.is_occupied());
        }
    }
    assert_eq!(handed_out, vec![2, 1, 4, 3, 6, 5, 8, 7]);
    assert_eq!(store.peek(), None);
}

#[test]
fn every_launched_process_is_held_or_handed_out() {
    let mut store: ProcessStore<u32> = ProcessStore::new();
    let mut handed_out: Vec<u32> = Vec::new();
    for handle in 1..=5u32 {
        let report = finish_start(&mut store, SpawnOutcome::Spawned(handle));
        handed_out.extend(report.surplus);
        if handle == 3 {
            handed_out.extend(get_backend_status(&mut store, Some(Liveness::Exited)).1);
        }
    }
    let mut all = handed_out;
    all.extend(store.take());
    all.sort();
    assert_eq!(all, vec![1, 2, 3, 4, 5]);
}

#[test]
fn late_process_is_handed_back_as_surplus() {
    let mut store = started(1);
    let report = finish_start(&mut store, SpawnOutcome::Spawned(2));
    assert_eq!(report, StartReport { result: Ok(()), surplus: Some(2) });
    assert_eq!(store.peek(), Some(&1));
}

#[test]
fn spawn_failure_is_surfaced_and_stores_nothing() {
    let mut store: ProcessStore<u32> = ProcessStore::new();
    let report = finish_start(
        &mut store,
        SpawnOutcome::SpawnFailed {
            path: "/opt/app/binaries/server-x86_64-unknown-linux-gnu".to_string(),
            cause: "No such file or directory (os error 2)".to_string(),
        },
    );
    match report.result {
        Err(error) => assert_eq!(
            error.message(),
            "Failed to start server binary /opt/app/binaries/server-x86_64-unknown-linux-gnu: No such file or directory (os error 2)"
        ),
        Ok(()) => panic!("a failed launch is an error"),
    }
    assert_eq!(report.surplus, None);
    assert!(store.is_unused());
    assert_eq!(get_backend_status(&mut store, None), (BackendState::NotStarted, None));
}

#[test]
fn failed_launch_does_not_disturb_a_running_process() {
    let mut store = started(1);
    let report = finish_start(
        &mut store,
        SpawnOutcome::SpawnFailed { path: "p".to_string(), cause: "c".to_string() },
    );
    assert_eq!(
        report.result,
        Err(StartError::Spawn { path: "p".to_string(), cause: "c".to_string() })
    );
    assert_eq!(store.peek(), Some(&1));
}

#[test]
fn failed_signal_is_surfaced_and_the_slot_is_empty_all_the_same() {
    let mut store = started(11);
    assert_eq!(stop_backend(&mut store), StopStep::Terminate(11));
    let result = finish_stop(KillOutcome::SignalFailed { cause: "permission denied".to_string() });
    assert_eq!(result, Err(StopError { cause: "permission denied".to_string() }));
    assert_eq!(
        StopError { cause: "permission denied".to_string() }.message(),
        "Failed to stop backend: permission denied"
    );
    assert!(!store.is_occupied());
    assert_eq!(get_backend_status(&mut store, None), (BackendState::Stopped, None));
}

#[test]
fn fresh_start_after_stop_creates_a_new_instance() {
    let mut store = started(1);
    assert_eq!(stop_backend(&mut store), StopStep::Terminate(1));
    assert_eq!(
        start_backend(&store, OsFamily::Windows, CpuArch::X86_64, BuildMode::Production, &found()),
        StartStep::Launch(LaunchPlan::Bundled(BundledBinary::X86_64PcWindowsMsvc))
    );
    let report = finish_start(&mut store, SpawnOutcome::Spawned(2));
    assert_eq!(report, StartReport { result: Ok(()), surplus: None });
    assert_eq!(store.peek(), Some(&2));
    assert_eq!(
        get_backend_status(&mut store, Some(Liveness::Alive)),
        (BackendState::Running, None)
    );
}

#[test]
fn stop_racing_a_pending_start_is_decided_by_arrival_order() {
    let mut store: ProcessStore<u32> = ProcessStore::new();
    let step =
        start_backend(&store, OsFamily::Linux, CpuArch::X86_64, BuildMode::Production, &found());
    assert!(matches!(step, StartStep::Launch(_)));
    assert_eq!(stop_backend(&mut store), StopStep::NotRunning);
    let report = finish_start(&mut store, SpawnOutcome::Spawned(5));
    assert_eq!(report, StartReport { result: Ok(()), surplus: None });
    assert_eq!(stop_backend(&mut store), StopStep::Terminate(5));
    assert_eq!(get_backend_status(&mut store, None), (BackendState::Stopped, None));
}
