//! Environment and port resolution: pure rules turning the build mode and
//! two environment indicators into a `SidecarConfig`.

use vstd::prelude::*;

verus! {

/// The compile-time distinction that determines the fixed port policy.
#[derive(Clone, Copy, PartialEq, Eq, Structural, Debug)]
pub enum BuildMode {
    Debug,
    Release,
}

/// The fixed port of development builds.
pub const DEBUG_PORT: u16 = 8001;

/// The fixed port of release builds, chosen to avoid common local-port
/// collisions.
pub const RELEASE_PORT: u16 = 48123;

/// The port the worker is told to bind, as a function of the build mode
/// alone: no ephemeral or dynamic allocation.
pub open spec fn spec_resolve_port(mode: BuildMode) -> u16 {
    match mode {
        BuildMode::Debug => DEBUG_PORT,
        BuildMode::Release => RELEASE_PORT,
    }
}

/// Resolves the worker's port from the build mode.
pub fn resolve_port(mode: BuildMode) -> (port: u16)
    ensures
        port == spec_resolve_port(mode),
{
    match mode {
        BuildMode::Debug => DEBUG_PORT,
        BuildMode::Release => RELEASE_PORT,
    }
}

/// Launch is suppressed exactly when either indicator is present: the CI
/// indicator or the explicit skip indicator. No other condition suppresses
/// startup.
pub open spec fn spec_resolve_skip(ci_present: bool, skip_requested: bool) -> bool {
    ci_present || skip_requested
}

/// Decides from the two environment indicators whether the worker launch is
/// skipped.
pub fn resolve_skip(ci_present: bool, skip_requested: bool) -> (skip: bool)
    ensures
        skip == spec_resolve_skip(ci_present, skip_requested),
{
    ci_present || skip_requested
}

/// The environment variable whose presence marks a CI environment.
pub fn ci_indicator_name() -> (name: &'static str)
    ensures
        name@ == "CI"@,
{
    "CI"
}

/// The environment variable whose presence explicitly requests a skip.
pub fn skip_indicator_name() -> (name: &'static str)
    ensures
        name@ == "TAURI_SKIP_SIDECAR"@,
{
    "TAURI_SKIP_SIDECAR"
}

/// The environment variable under which the chosen port is handed to the
/// worker.
pub fn port_env_var_name() -> (name: &'static str)
    ensures
        name@ == "DJALY_PORT"@,
{
    "DJALY_PORT"
}

/// The name of the bundled worker executable.
pub fn worker_executable_name() -> (name: &'static str)
    ensures
        name@ == "djaly-server"@,
{
    "djaly-server"
}

/// The worker's launch configuration. Immutable once constructed; fully
/// determined by the build mode and the environment at resolve time.
pub struct SidecarConfig {
    pub executable_name: String,
    pub port: u16,
    pub skip: bool,
}

/// What it means for a configuration to be the one resolved from a build
/// mode and the two environment indicators.
pub open spec fn config_resolved_from(
    c: SidecarConfig,
    mode: BuildMode,
    ci_present: bool,
    skip_requested: bool,
) -> bool {
    &&& c.executable_name@ == "djaly-server"@
    &&& c.port == spec_resolve_port(mode)
    &&& c.skip == spec_resolve_skip(ci_present, skip_requested)
}

/// Resolves the full launch configuration.
pub fn resolve_config(mode: BuildMode, ci_present: bool, skip_requested: bool) -> (c: SidecarConfig)
    ensures
        config_resolved_from(c, mode, ci_present, skip_requested),
{
    SidecarConfig {
        executable_name: worker_executable_name().to_owned(),
        port: resolve_port(mode),
        skip: resolve_skip(ci_present, skip_requested),
    }
}

/// Port policy law: resolution is deterministic — equal build modes resolve
/// to equal ports — and the two build modes resolve to two distinct fixed
/// ports.
pub proof fn lemma_port_policy(m1: BuildMode, m2: BuildMode)
    ensures
        m1 == m2 ==> spec_resolve_port(m1) == spec_resolve_port(m2),
        spec_resolve_port(BuildMode::Debug) == DEBUG_PORT,
        spec_resolve_port(BuildMode::Release) == RELEASE_PORT,
        spec_resolve_port(BuildMode::Debug) != spec_resolve_port(BuildMode::Release),
{
}

} // verus!
