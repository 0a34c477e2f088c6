//! Starting, stopping and probing the backend.
//!
//! The host does the work on the operating system; the functions here
//! decide.  A start is two calls: `start_backend` looks at the store, the
//! resource directory and the platform and says whether to launch and
//! what, and, once the host has tried, `finish_start` records what came of
//! it.  A stop is two calls in the same way.  Where a step leaves the host
//! nothing to do, `result` of the step is the answer for the caller.  The
//! store is touched only inside these calls, never while the host launches
//! or waits, so a start and a stop that overlap are served in the order in
//! which they reach the store.
//!
//! Policy: a start while a process is held, and a stop while none is held,
//! both succeed and change nothing that runs.  A process is held until a
//! stop takes it out or a status call sees that it has exited: the status
//! call then releases it, so that the next start launches a new one.

use crate::platform::{
    arch_label, bundled_for, launch_for, os_label, resolve_launch, BuildMode, CpuArch, LaunchPlan,
    OsFamily, UnsupportedPlatform,
};
use crate::store::{ProcessStore, Slot};
use vstd::prelude::*;
use vstd::seq_lib::{lemma_multiset_commutative, lemma_seq_union_to_multiset_commutative};
use vstd::string::StringExecFns;

verus! {

/// What a probe of the held process found.
#[derive(Clone, Copy, Debug, PartialEq, Eq, Structural)]
pub enum Liveness {
    /// The process has not exited.
    Alive,
    /// The process has exited.
    Exited,
    /// The probe itself failed.
    CheckFailed,
}

/// State of the backend as the front end sees it.
#[derive(Clone, Copy, Debug, PartialEq, Eq, Structural)]
pub enum BackendState {
    NotStarted,
    Running,
    Stopped,
    Unknown,
}

/// Why a start failed.
#[derive(Debug, PartialEq, Eq)]
pub enum StartError {
    /// A production build on a platform without a bundled binary.
    Unsupported(UnsupportedPlatform),
    /// The host could not find its resource directory.
    ResourceDirectory { cause: String },
    /// The program at `path` could not be launched.
    Spawn { path: String, cause: String },
}

/// Why a stop failed: the signal could not be delivered.
#[derive(Debug, PartialEq, Eq)]
pub struct StopError {
    pub cause: String,
}

/// What the host is to do for a start request.
#[derive(Debug, PartialEq, Eq)]
pub enum StartStep {
    /// A process is held: nothing to do, the start has succeeded.
    AlreadyRunning,
    /// Launch this, then report to `finish_start`.
    Launch(LaunchPlan),
    /// Nothing can be launched: the start has failed.
    Fail(StartError),
}

/// What came of the host's attempt to launch.
#[derive(Debug, PartialEq, Eq)]
pub enum SpawnOutcome<H> {
    Spawned(H),
    SpawnFailed { path: String, cause: String },
}

/// How a start ended.
#[derive(Debug, PartialEq, Eq)]
pub struct StartReport<H> {
    pub result: Result<(), StartError>,
    /// A process that was launched while another one took the slot: the
    /// host must terminate it.
    pub surplus: Option<H>,
}

/// What the host is to do for a stop request.
#[derive(Debug, PartialEq, Eq)]
pub enum StopStep<H> {
    /// No process was held: nothing to do, the stop has succeeded.
    NotRunning,
    /// Terminate and reap this process, then report to `finish_stop`.
    Terminate(H),
}

/// What came of the host's attempt to terminate.
#[derive(Debug, PartialEq, Eq)]
pub enum KillOutcome {
    /// The signal was delivered and the process waited for.
    Killed,
    SignalFailed { cause: String },
}

/// The step for a start request.  A held process wins over everything.
/// A production build then needs its resource directory, whatever the
/// platform; what the directory is does not matter here, only whether the
/// host found it.  Last, the platform decides.
pub open spec fn start_step_for<H>(
    slot: Slot<H>,
    os: OsFamily,
    arch: CpuArch,
    mode: BuildMode,
    resource_directory: Result<String, String>,
) -> StartStep {
    if slot is Occupied {
        StartStep::AlreadyRunning
    } else {
        match (mode, resource_directory) {
            (BuildMode::Production, Err(cause)) => StartStep::Fail(
                StartError::ResourceDirectory { cause },
            ),
            _ => match launch_for(os, arch, mode) {
                Ok(plan) => StartStep::Launch(plan),
                Err(unsupported) => StartStep::Fail(StartError::Unsupported(unsupported)),
            },
        }
    }
}

/// The answer of a start that leaves the host nothing to do: a success
/// where a process is held, the error where nothing can be launched.
/// `None` where the host is to launch.
pub open spec fn start_step_result(step: StartStep) -> Option<Result<(), StartError>> {
    match step {
        StartStep::AlreadyRunning => Some(Ok(())),
        StartStep::Fail(error) => Some(Err(error)),
        StartStep::Launch(_) => None,
    }
}

/// The slot after a launch attempt was reported.
pub open spec fn slot_after_spawn<H>(slot: Slot<H>, outcome: SpawnOutcome<H>) -> Slot<H> {
    match outcome {
        SpawnOutcome::Spawned(handle) => slot.after_set(handle),
        SpawnOutcome::SpawnFailed { .. } => slot,
    }
}

/// The report for a launch attempt.
pub open spec fn report_of_spawn<H>(slot: Slot<H>, outcome: SpawnOutcome<H>) -> StartReport<H> {
    match outcome {
        SpawnOutcome::Spawned(handle) => StartReport {
            result: Ok(()),
            surplus: slot.rejected_by_set(handle),
        },
        SpawnOutcome::SpawnFailed { path, cause } => StartReport {
            result: Err(StartError::Spawn { path, cause }),
            surplus: None,
        },
    }
}

/// The step for a stop request.
pub open spec fn stop_step_for<H>(slot: Slot<H>) -> StopStep<H> {
    match slot {
        Slot::Occupied(handle) => StopStep::Terminate(handle),
        _ => StopStep::NotRunning,
    }
}

/// The answer of a stop that leaves the host nothing to do: a success
/// where no process was held.  `None` where the host is to terminate one.
pub open spec fn stop_step_result<H>(step: StopStep<H>) -> Option<Result<(), StopError>> {
    match step {
        StopStep::NotRunning => Some(Ok(())),
        StopStep::Terminate(_) => None,
    }
}

/// The result of a stop, given what came of the termination.
pub open spec fn stop_result_for(outcome: KillOutcome) -> Result<(), StopError> {
    match outcome {
        KillOutcome::Killed => Ok(()),
        KillOutcome::SignalFailed { cause } => Err(StopError { cause }),
    }
}

/// The state of the backend, from the slot and from a probe made just now.
/// `observed` is what the probe of the held process found; it counts only
/// while a process is held, and a held process without a probe is unknown.
pub open spec fn state_for<H>(slot: Slot<H>, observed: Option<Liveness>) -> BackendState {
    match slot {
        Slot::Unused => BackendState::NotStarted,
        Slot::Released => BackendState::Stopped,
        Slot::Occupied(_) => match observed {
            Some(Liveness::Alive) => BackendState::Running,
            Some(Liveness::Exited) => BackendState::Stopped,
            Some(Liveness::CheckFailed) => BackendState::Unknown,
            None => BackendState::Unknown,
        },
    }
}

/// The slot after a status call: a held process that the probe found
/// exited is released, everything else stays.
pub open spec fn slot_after_status<H>(slot: Slot<H>, observed: Option<Liveness>) -> Slot<H> {
    match (slot, observed) {
        (Slot::Occupied(_), Some(Liveness::Exited)) => Slot::Released,
        _ => slot,
    }
}

/// The process that a status call hands out: the held one, if the probe
/// found it exited.
pub open spec fn released_by_status<H>(slot: Slot<H>, observed: Option<Liveness>) -> Option<H> {
    match (slot, observed) {
        (Slot::Occupied(handle), Some(Liveness::Exited)) => Some(handle),
        _ => None,
    }
}

/// Label of a state, as the front end polls for it.  A backend that was
/// never started is reported like one that was stopped.
pub open spec fn state_label(state: BackendState) -> Seq<char> {
    match state {
        BackendState::Running => "running"@,
        BackendState::NotStarted => "stopped"@,
        BackendState::Stopped => "stopped"@,
        BackendState::Unknown => "unknown"@,
    }
}

/// Text of a start error.
pub open spec fn start_error_text(error: StartError) -> Seq<char> {
    match error {
        StartError::Unsupported(platform) => "Unsupported platform "@ + os_label(platform.os)
            + "/"@ + arch_label(platform.arch) + ": no bundled server binary"@,
        StartError::ResourceDirectory { cause } => "Failed to resolve resource directory: "@
            + cause@,
        StartError::Spawn { path, cause } => "Failed to start server binary "@ + path@ + ": "@
            + cause@,
    }
}

/// Text of a stop error.
pub open spec fn stop_error_text(error: StopError) -> Seq<char> {
    "Failed to stop backend: "@ + error.cause@
}

impl BackendState {
    pub fn label(&self) -> (text: &'static str)
        ensures
            text@ == state_label(*self),
    {
        match self {
            BackendState::Running => "running",
            BackendState::NotStarted => "stopped",
            BackendState::Stopped => "stopped",
            BackendState::Unknown => "unknown",
        }
    }
}

impl StartError {
    fn duplicate(&self) -> (copy: StartError)
        ensures
            copy == *self,
    {
        match self {
            StartError::Unsupported(platform) => StartError::Unsupported(*platform),
            StartError::ResourceDirectory { cause } => StartError::ResourceDirectory {
                cause: cause.clone(),
            },
            StartError::Spawn { path, cause } => StartError::Spawn {
                path: path.clone(),
                cause: cause.clone(),
            },
        }
    }

    /// The message for the caller.
    pub fn message(&self) -> (text: String)
        ensures
            text@ == start_error_text(*self),
    {
        match self {
            StartError::Unsupported(platform) => {
                let mut text = String::from_str("Unsupported platform ");
                text.append(platform.os.label());
                text.append("/");
                text.append(platform.arch.label());
                text.append(": no bundled server binary");
                text
            },
            StartError::ResourceDirectory { cause } => {
                let mut text = String::from_str("Failed to resolve resource directory: ");
                text.append(cause.as_str());
                text
            },
            StartError::Spawn { path, cause } => {
                let mut text = String::from_str("Failed to start server binary ");
                text.append(path.as_str());
                text.append(": ");
                text.append(cause.as_str());
                text
            },
        }
    }
}

impl StopError {
    /// The message for the caller.
    pub fn message(&self) -> (text: String)
        ensures
            text@ == stop_error_text(*self),
    {
        let mut text = String::from_str("Failed to stop backend: ");
        text.append(self.cause.as_str());
        text
    }
}

impl StartStep {
    /// The answer for the caller where the step leaves the host nothing to
    /// do; `None` where the host is to launch and report to `finish_start`.
    pub fn result(&self) -> (answer: Option<Result<(), StartError>>)
        ensures
            answer == start_step_result(*self),
    {
        match self {
            StartStep::AlreadyRunning => Some(Ok(())),
            StartStep::Fail(error) => Some(Err(error.duplicate())),
            StartStep::Launch(_) => None,
        }
    }
}

impl<H> StopStep<H> {
    /// The answer for the caller where the step leaves the host nothing to
    /// do; `None` where the host is to terminate and report to
    /// `finish_stop`.
    pub fn result(&self) -> (answer: Option<Result<(), StopError>>)
        ensures
            answer == stop_step_result(*self),
    {
        match self {
            StopStep::NotRunning => Some(Ok(())),
            StopStep::Terminate(_) => None,
        }
    }
}

/// First half of a start: decides whether to launch, and what.
/// `resource_directory` is what came of the host's search for its resource
/// directory: the directory, or why it was not found.  It is read only for
/// a production build with an empty slot.
pub fn start_backend<H>(
    store: &ProcessStore<H>,
    os: OsFamily,
    arch: CpuArch,
    mode: BuildMode,
    resource_directory: &Result<String, String>,
) -> (step: StartStep)
    ensures
        step == start_step_for(store@, os, arch, mode, *resource_directory),
{
    if store.is_occupied() {
        return StartStep::AlreadyRunning;
    }
    match mode {
        BuildMode::Production => match resource_directory {
            Err(cause) => {
                return StartStep::Fail(StartError::ResourceDirectory { cause: cause.clone() });
            },
            Ok(_) => {},
        },
        BuildMode::Development => {},
    }
    match resolve_launch(os, arch, mode) {
        Ok(plan) => StartStep::Launch(plan),
        Err(unsupported) => StartStep::Fail(StartError::Unsupported(unsupported)),
    }
}

/// Second half of a start: records the launched process.  If the slot was
/// taken in the meantime the start still succeeds, and the process that
/// came too late is handed back as surplus.
pub fn finish_start<H>(store: &mut ProcessStore<H>, outcome: SpawnOutcome<H>) -> (report:
    StartReport<H>)
    ensures
        final(store)@ == slot_after_spawn(old(store)@, outcome),
        report == report_of_spawn(old(store)@, outcome),
{
    match outcome {
        SpawnOutcome::Spawned(handle) => {
            let surplus = store.set(handle);
            StartReport { result: Ok(()), surplus }
        },
        SpawnOutcome::SpawnFailed { path, cause } => StartReport {
            result: Err(StartError::Spawn { path, cause }),
            surplus: None,
        },
    }
}

/// First half of a stop: empties the slot, whatever comes of the
/// termination, and hands out the process to terminate.
pub fn stop_backend<H>(store: &mut ProcessStore<H>) -> (step: StopStep<H>)
    ensures
        final(store)@ == Slot::<H>::Released,
        step == stop_step_for(old(store)@),
{
    match store.take() {
        Some(handle) => StopStep::Terminate(handle),
        None => StopStep::NotRunning,
    }
}

/// Second half of a stop: the result for the caller.
pub fn finish_stop(outcome: KillOutcome) -> (result: Result<(), StopError>)
    ensures
        result == stop_result_for(outcome),
{
    match outcome {
        KillOutcome::Killed => Ok(()),
        KillOutcome::SignalFailed { cause } => Err(StopError { cause }),
    }
}

/// The state of the backend, and the process that the call releases.
/// The host probes the held process right before the call and passes what
/// it found; no liveness is remembered from one call to the next.  A
/// process that the probe found exited leaves the store and is handed to
/// the host, which has nothing left to do with it but drop it; a process
/// that lives, or whose probe failed, stays where it is.
pub fn get_backend_status<H>(store: &mut ProcessStore<H>, observed: Option<Liveness>) -> (seen: (
    BackendState,
    Option<H>,
))
    ensures
        seen.0 == state_for(old(store)@, observed),
        seen.1 == released_by_status(old(store)@, observed),
        final(store)@ == slot_after_status(old(store)@, observed),
{
    if store.is_occupied() {
        match observed {
            Some(Liveness::Alive) => (BackendState::Running, None),
            Some(Liveness::Exited) => {
                let exited = store.take();
                (BackendState::Stopped, exited)
            },
            Some(Liveness::CheckFailed) => (BackendState::Unknown, None),
            None => (BackendState::Unknown, None),
        }
    } else if store.is_unused() {
        (BackendState::NotStarted, None)
    } else {
        (BackendState::Stopped, None)
    }
}

/// One change to the store: a launch attempt is reported, a stop is asked
/// for, or the status is asked for with what the probe found.
pub enum StoreStep<H> {
    FinishStart(SpawnOutcome<H>),
    Stop,
    Status(Option<Liveness>),
}

/// The slot after one step.
pub open spec fn slot_after_step<H>(slot: Slot<H>, step: StoreStep<H>) -> Slot<H> {
    match step {
        StoreStep::FinishStart(outcome) => slot_after_spawn(slot, outcome),
        StoreStep::Stop => Slot::Released,
        StoreStep::Status(observed) => slot_after_status(slot, observed),
    }
}

/// The slot after a run of steps, in the order in which they reached the store.
pub open spec fn slot_after_steps<H>(slot: Slot<H>, steps: Seq<StoreStep<H>>) -> Slot<H>
    decreases steps.len(),
{
    if steps.len() == 0 {
        slot
    } else {
        slot_after_step(slot_after_steps(slot, steps.drop_last()), steps.last())
    }
}

/// Whatever starts, stops and status calls reach the store, in whatever
/// order, it never holds more than one handle.
pub proof fn lemma_at_most_one_handle<H>(slot: Slot<H>, steps: Seq<StoreStep<H>>)
    ensures
        slot_after_steps(slot, steps).handles().len() <= 1,
{
}

/// While a handle is held, a start launches nothing and succeeds, and a
/// process that was launched all the same does not displace the held one:
/// it comes back as surplus.  A status call leaves a held process in place
/// unless the probe found it exited.
pub proof fn lemma_start_keeps_held_handle<H>(
    held: H,
    os: OsFamily,
    arch: CpuArch,
    mode: BuildMode,
    resource_directory: Result<String, String>,
    late: H,
    observed: Option<Liveness>,
)
    ensures
        start_step_for(Slot::Occupied(held), os, arch, mode, resource_directory)
            == StartStep::AlreadyRunning,
        start_step_result(StartStep::AlreadyRunning) == Some(Ok::<(), StartError>(())),
        slot_after_spawn(Slot::Occupied(held), SpawnOutcome::Spawned(late)) == Slot::Occupied(held),
        report_of_spawn(Slot::Occupied(held), SpawnOutcome::Spawned(late)) == (StartReport::<H> {
            result: Ok(()),
            surplus: Some(late),
        }),
        observed != Some(Liveness::Exited) ==> {
            &&& slot_after_status(Slot::Occupied(held), observed) == Slot::Occupied(held)
            &&& released_by_status(Slot::Occupied(held), observed) is None
        },
{
}

/// A start that succeeds leaves a process in the store, and a probe that
/// finds it alive right afterwards reports `Running` and leaves it there:
/// whether the start found a process held, or launched `handle` itself.
pub proof fn lemma_running_after_start<H>(
    slot: Slot<H>,
    os: OsFamily,
    arch: CpuArch,
    mode: BuildMode,
    resource_directory: Result<String, String>,
    handle: H,
)
    ensures
        start_step_for(slot, os, arch, mode, resource_directory) is AlreadyRunning ==> {
            &&& state_for(slot, Some(Liveness::Alive)) == BackendState::Running
            &&& slot_after_status(slot, Some(Liveness::Alive)) == slot
        },
        start_step_for(slot, os, arch, mode, resource_directory) is Launch ==> {
            &&& slot_after_spawn(slot, SpawnOutcome::Spawned(handle)) == Slot::Occupied(handle)
            &&& report_of_spawn(slot, SpawnOutcome::Spawned(handle)) == (StartReport::<H> {
                result: Ok(()),
                surplus: None,
            })
            &&& state_for(
                slot_after_spawn(slot, SpawnOutcome::Spawned(handle)),
                Some(Liveness::Alive),
            ) == BackendState::Running
            &&& slot_after_status(
                slot_after_spawn(slot, SpawnOutcome::Spawned(handle)),
                Some(Liveness::Alive),
            ) == Slot::Occupied(handle)
        },
{
}

/// After a stop the state is `Stopped`, whatever the slot held before and
/// whatever a probe may claim, and the status call changes nothing.
pub proof fn lemma_stopped_after_stop<H>(slot: Slot<H>, observed: Option<Liveness>)
    ensures
        state_for(slot_after_step(slot, StoreStep::Stop), observed) == BackendState::Stopped,
        slot_after_status(slot_after_step(slot, StoreStep::Stop), observed) == Slot::<H>::Released,
{
}

/// A stop while no process is held asks for no termination, succeeds, and
/// leaves the backend `Stopped`.
pub proof fn lemma_stop_without_process<H>(slot: Slot<H>, observed: Option<Liveness>)
    requires
        !(slot is Occupied),
    ensures
        stop_step_for(slot) == StopStep::<H>::NotRunning,
        stop_step_result(stop_step_for(slot)) == Some(Ok::<(), StopError>(())),
        state_for(slot_after_step(slot, StoreStep::Stop), observed) == BackendState::Stopped,
{
}

/// A process that has exited on its own is reported `Stopped` by the next
/// status call, which releases it; every status call after that says
/// `Stopped` too.  The state follows the probe, not the fact that a handle
/// is held.
pub proof fn lemma_exit_is_reported<H>(handle: H, later: Option<Liveness>)
    ensures
        state_for(Slot::Occupied(handle), Some(Liveness::Exited)) == BackendState::Stopped,
        slot_after_status(Slot::Occupied(handle), Some(Liveness::Exited)) == Slot::<H>::Released,
        released_by_status(Slot::Occupied(handle), Some(Liveness::Exited)) == Some(handle),
        state_for(slot_after_status(Slot::Occupied(handle), Some(Liveness::Exited)), later)
            == BackendState::Stopped,
{
}

/// From `Stopped` a start creates a new instance.  Once a status call has
/// seen that the held process `exited`, a start is decided as for a slot
/// that never held one; where that is a launch and `fresh` comes of it,
/// the store holds `fresh`, nothing is surplus, and a probe that finds it
/// alive reports `Running`.
pub proof fn lemma_fresh_start_after_exit<H>(
    exited: H,
    os: OsFamily,
    arch: CpuArch,
    mode: BuildMode,
    resource_directory: Result<String, String>,
    fresh: H,
)
    ensures
        ({
            let stopped = slot_after_status(Slot::Occupied(exited), Some(Liveness::Exited));
            let step = start_step_for(stopped, os, arch, mode, resource_directory);
            let started = slot_after_spawn(stopped, SpawnOutcome::Spawned(fresh));
            &&& step == start_step_for(Slot::<H>::Unused, os, arch, mode, resource_directory)
            &&& !(step is AlreadyRunning)
            &&& (mode == BuildMode::Production && resource_directory is Ok && bundled_for(os, arch)
                is Some) ==> step is Launch
            &&& mode == BuildMode::Development ==> step is Launch
            &&& started == Slot::Occupied(fresh)
            &&& report_of_spawn(stopped, SpawnOutcome::Spawned(fresh)) == (StartReport::<H> {
                result: Ok(()),
                surplus: None,
            })
            &&& state_for(started, Some(Liveness::Alive)) == BackendState::Running
        }),
{
}

/// In a production build with an empty slot, a resource directory that was
/// not found fails the start with that cause, whatever the platform; the
/// platform is looked at only once the directory is there.
pub proof fn lemma_resource_directory_comes_first<H>(
    slot: Slot<H>,
    os: OsFamily,
    arch: CpuArch,
    cause: String,
    directory: String,
)
    requires
        !(slot is Occupied),
    ensures
        start_step_for(slot, os, arch, BuildMode::Production, Err(cause)) == StartStep::Fail(
            StartError::ResourceDirectory { cause },
        ),
        start_step_for(slot, os, arch, BuildMode::Production, Ok(directory)) == (match bundled_for(
            os,
            arch,
        ) {
            Some(binary) => StartStep::Launch(LaunchPlan::Bundled(binary)),
            None => StartStep::Fail(StartError::Unsupported(UnsupportedPlatform { os, arch })),
        }),
        start_step_for(slot, os, arch, BuildMode::Development, Err(cause)) == StartStep::Launch(
            LaunchPlan::Development,
        ),
{
}

/// The processes that a step brings to the store.
pub open spec fn launched_by<H>(step: StoreStep<H>) -> Seq<H> {
    match step {
        StoreStep::FinishStart(SpawnOutcome::Spawned(handle)) => seq![handle],
        _ => Seq::empty(),
    }
}

/// The processes that a step hands to the host: the surplus of a start
/// and what a stop took out of the slot, to terminate, and what a status
/// call released, to drop.
pub open spec fn handed_out_by<H>(slot: Slot<H>, step: StoreStep<H>) -> Seq<H> {
    match step {
        StoreStep::FinishStart(outcome) => match report_of_spawn(slot, outcome).surplus {
            Some(handle) => seq![handle],
            None => Seq::empty(),
        },
        StoreStep::Stop => match stop_step_for(slot) {
            StopStep::Terminate(handle) => seq![handle],
            StopStep::NotRunning => Seq::empty(),
        },
        StoreStep::Status(observed) => match released_by_status(slot, observed) {
            Some(handle) => seq![handle],
            None => Seq::empty(),
        },
    }
}

/// All processes that a run of steps brings to the store.
pub open spec fn launched<H>(steps: Seq<StoreStep<H>>) -> Seq<H>
    decreases steps.len(),
{
    if steps.len() == 0 {
        Seq::empty()
    } else {
        launched(steps.drop_last()) + launched_by(steps.last())
    }
}

/// All processes that a run of steps hands to the host.
pub open spec fn handed_out<H>(slot: Slot<H>, steps: Seq<StoreStep<H>>) -> Seq<H>
    decreases steps.len(),
{
    if steps.len() == 0 {
        Seq::empty()
    } else {
        handed_out(slot, steps.drop_last()) + handed_out_by(
            slot_after_steps(slot, steps.drop_last()),
            steps.last(),
        )
    }
}

/// No process is lost and none is counted twice: the process held at
/// first and those launched since are, one for one, those handed to the
/// host and the one held at the end.
pub proof fn lemma_no_process_is_lost<H>(slot: Slot<H>, steps: Seq<StoreStep<H>>)
    ensures
        (slot.handles() + launched(steps)).to_multiset() == (handed_out(slot, steps)
            + slot_after_steps(slot, steps).handles()).to_multiset(),
    decreases steps.len(),
{
    if steps.len() == 0 {
        assert(slot.handles() + launched(steps) =~= handed_out(slot, steps) + slot.handles());
    } else {
        let before = steps.drop_last();
        let step = steps.last();
        let mid = slot_after_steps(slot, before);
        let end = slot_after_steps(slot, steps);
        lemma_no_process_is_lost(slot, before);
        assert((mid.handles() + launched_by(step)).to_multiset() == (handed_out_by(mid, step)
            + end.handles()).to_multiset()) by {
            if mid is Occupied && launched_by(step).len() > 0 {
                // the held process stays, the new one comes back: the same two, in the other order
                lemma_seq_union_to_multiset_commutative(mid.handles(), launched_by(step));
                assert(launched_by(step) + mid.handles() =~= handed_out_by(mid, step)
                    + end.handles());
            } else {
                assert(mid.handles() + launched_by(step) =~= handed_out_by(mid, step)
                    + end.handles());
            }
        }
        lemma_multiset_commutative(slot.handles(), launched(before));
        lemma_multiset_commutative(handed_out(slot, before), mid.handles());
        lemma_multiset_commutative(mid.handles(), launched_by(step));
        lemma_multiset_commutative(handed_out_by(mid, step), end.handles());
        lemma_multiset_commutative(slot.handles() + launched(before), launched_by(step));
        lemma_multiset_commutative(handed_out(slot, before), handed_out_by(mid, step));
        lemma_multiset_commutative(handed_out(slot, steps), end.handles());
        assert(slot.handles() + launched(steps) =~= (slot.handles() + launched(before))
            + launched_by(step));
        assert((slot.handles() + launched(steps)).to_multiset() =~= (handed_out(slot, steps)
            + end.handles()).to_multiset());
    }
}

} // verus!
