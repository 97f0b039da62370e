//! Process supervision: the lifecycle of the one worker process of an
//! application run, and the decision whether and how to spawn it.
//!
//! The supervisor itself performs no OS call. It hands the host a
//! `StartPlan`; the host either does nothing (a skip) or performs exactly
//! the one spawn request and reports the `SpawnOutcome` back.

use vstd::prelude::*;
use crate::config::SidecarConfig;
use crate::config::port_env_var_name;

verus! {

/// Why the worker could not be spawned. Either way the failure is fatal:
/// there is no retry, and application startup is expected to abort.
#[derive(Clone, Copy, PartialEq, Eq, Structural, Debug)]
pub enum SpawnError {
    /// The bundled executable was not found.
    ExecutableNotFound,
    /// The operating system refused to create the process.
    OsRefused,
}

/// What the one OS spawn attempt came to.
#[derive(Clone, Copy, PartialEq, Eq, Structural, Debug)]
pub enum SpawnOutcome {
    /// The process was created under this OS process identifier.
    Spawned { pid: u32 },
    /// The process could not be created.
    Failed { error: SpawnError },
}

/// The lifecycle state of the supervised worker.
#[derive(Clone, Copy, PartialEq, Eq, Structural, Debug)]
pub enum SupervisorState {
    /// No start has been attempted yet.
    NotStarted,
    /// Launch was suppressed by the environment. A valid outcome, not an
    /// error.
    Skipped,
    /// The spawn attempt failed; fatal for this run.
    SpawnFailed { error: SpawnError },
    /// The worker runs under this OS process identifier.
    Running { pid: u32 },
    /// The worker exited with this code.
    Exited { code: i32 },
}

/// Everything the host needs to create the worker process: the executable
/// to resolve against the bundled-resource location, and the environment
/// variable carrying the chosen port.
pub struct SpawnRequest {
    pub executable_name: String,
    pub env_var: String,
    pub port: u16,
}

/// What the host must do for a given configuration: nothing at all, or
/// exactly one spawn.
pub enum StartPlan {
    /// Touch the OS process table not at all.
    Skip,
    /// Perform this one spawn request.
    Spawn(SpawnRequest),
}

/// Whether the plan for a configuration performs a spawn: exactly when the
/// configuration does not ask for a skip.
pub open spec fn spec_plan_spawns(c: SidecarConfig) -> bool {
    !c.skip
}

/// Turns a configuration into the host's start plan.
pub fn plan_start(config: &SidecarConfig) -> (plan: StartPlan)
    ensures
        plan is Spawn <==> spec_plan_spawns(*config),
        plan matches StartPlan::Spawn(req) ==> {
            &&& req.executable_name@ == config.executable_name@
            &&& req.env_var@ == "DJALY_PORT"@
            &&& req.port == config.port
        },
{
    if config.skip {
        StartPlan::Skip
    } else {
        StartPlan::Spawn(SpawnRequest {
            executable_name: config.executable_name.clone(),
            env_var: port_env_var_name().to_owned(),
            port: config.port,
        })
    }
}

/// The state a spawn outcome settles the supervisor in: `Running` exactly
/// on success, `SpawnFailed` exactly on failure, each carrying what the
/// outcome carried.
pub open spec fn state_after_spawn(outcome: SpawnOutcome) -> SupervisorState {
    match outcome {
        SpawnOutcome::Spawned { pid } => SupervisorState::Running { pid },
        SpawnOutcome::Failed { error } => SupervisorState::SpawnFailed { error },
    }
}

/// The allowed lifecycle steps: out of `NotStarted` into `Skipped`,
/// `SpawnFailed` or `Running`; out of `Running` into `Exited`; nothing
/// else.
pub open spec fn step_allowed(from: SupervisorState, to: SupervisorState) -> bool {
    match from {
        SupervisorState::NotStarted => to is Skipped || to is SpawnFailed || to is Running,
        SupervisorState::Running { pid: _ } => to is Exited,
        _ => false,
    }
}

/// The states this run never leaves again.
pub open spec fn is_terminal(s: SupervisorState) -> bool {
    s is Skipped || s is SpawnFailed || s is Exited
}

/// Tracks the lifecycle of the one worker process of an application run.
pub struct Supervisor {
    state: SupervisorState,
}

impl View for Supervisor {
    type V = SupervisorState;

    closed spec fn view(&self) -> SupervisorState {
        self.state
    }
}

impl Supervisor {
    /// A fresh supervisor: nothing attempted yet.
    pub fn new() -> (s: Supervisor)
        ensures
            s@ is NotStarted,
    {
        Supervisor { state: SupervisorState::NotStarted }
    }

    /// The current lifecycle state.
    pub fn state(&self) -> (st: SupervisorState)
        ensures
            st == self@,
    {
        self.state
    }

    /// Records that launch was suppressed by the environment.
    pub fn record_skip(&mut self)
        requires
            old(self)@ is NotStarted,
        ensures
            final(self)@ is Skipped,
            step_allowed(old(self)@, final(self)@),
    {
        self.state = SupervisorState::Skipped;
    }

    /// Records what the host's one spawn attempt came to.
    pub fn record_spawn_outcome(&mut self, outcome: SpawnOutcome)
        requires
            old(self)@ is NotStarted,
        ensures
            final(self)@ == state_after_spawn(outcome),
            step_allowed(old(self)@, final(self)@),
    {
        self.state = match outcome {
            SpawnOutcome::Spawned { pid } => SupervisorState::Running { pid },
            SpawnOutcome::Failed { error } => SupervisorState::SpawnFailed { error },
        };
    }

    /// Records that the running worker exited with the given code.
    pub fn record_exit(&mut self, code: i32)
        requires
            old(self)@ is Running,
        ensures
            final(self)@ == (SupervisorState::Exited { code }),
            step_allowed(old(self)@, final(self)@),
    {
        self.state = SupervisorState::Exited { code };
    }
}

/// Skip law: in every environment where either skip indicator is present,
/// the resolved configuration asks for a skip, the start plan performs no
/// spawn, and recording the skip settles the run in `Skipped` — a terminal
/// state that is not `Running`.
pub proof fn lemma_skip_indicator_suppresses_spawn(
    c: SidecarConfig,
    mode: crate::config::BuildMode,
    ci_present: bool,
    skip_requested: bool,
)
    requires
        ci_present || skip_requested,
        crate::config::config_resolved_from(c, mode, ci_present, skip_requested),
    ensures
        c.skip,
        !spec_plan_spawns(c),
        step_allowed(SupervisorState::NotStarted, SupervisorState::Skipped),
        is_terminal(SupervisorState::Skipped),
        !(SupervisorState::Skipped is Running),
{
}

/// Spawn-failure law: a failed spawn attempt settles the supervisor in
/// `SpawnFailed` carrying the failure — a terminal state that is never
/// `Running`.
pub proof fn lemma_spawn_failure_is_fatal(error: SpawnError)
    ensures
        state_after_spawn(SpawnOutcome::Failed { error }) == (SupervisorState::SpawnFailed {
            error,
        }),
        !(state_after_spawn(SpawnOutcome::Failed { error }) is Running),
        is_terminal(state_after_spawn(SpawnOutcome::Failed { error })),
{
}

/// Terminality law: no lifecycle step leaves a terminal state.
pub proof fn lemma_terminal_states_are_final(from: SupervisorState, to: SupervisorState)
    requires
        is_terminal(from),
    ensures
        !step_allowed(from, to),
{
}

} // verus!
