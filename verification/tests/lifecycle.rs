//! End-to-end over a stub worker: a debug-mode, non-skipping start reaches
//! `Running`, and one line on each channel yields exactly one tagged event
//! per channel.

use djaly_sidecar::config::resolve_config;
use djaly_sidecar::config::BuildMode;
use djaly_sidecar::multiplexer::multiplex;
use djaly_sidecar::multiplexer::Chunk;
use djaly_sidecar::multiplexer::StreamKind;
use djaly_sidecar::supervisor::plan_start;
use djaly_sidecar::supervisor::SpawnOutcome;
use djaly_sidecar::supervisor::StartPlan;
use djaly_sidecar::supervisor::Supervisor;
use djaly_sidecar::supervisor::SupervisorState;

#[test]
fn debug_start_reaches_running_and_delivers_one_event_per_stream() {
    let config = resolve_config(BuildMode::Debug, false, false);
    assert!(!config.skip);

    let request = match plan_start(&config) {
        StartPlan::Spawn(request) => request,
        StartPlan::Skip => panic!("a non-skipping configuration must plan a spawn"),
    };
    assert_eq!(request.executable_name, "djaly-server");
    assert_eq!(request.env_var, "DJALY_PORT");
    assert_eq!(request.port, 8001);

    // The stub worker spawns at once and immediately prints one line to
    // each of its two streams.
    let mut supervisor = Supervisor::new();
    supervisor.record_spawn_outcome(SpawnOutcome::Spawned { pid: 1000 });
    assert_eq!(supervisor.state(), SupervisorState::Running { pid: 1000 });

    let chunks = vec![
        Chunk {
            stream: StreamKind::Stdout,
            bytes: b"hello from stdout".to_vec(),
        },
        Chunk {
            stream: StreamKind::Stderr,
            bytes: b"hello from stderr".to_vec(),
        },
    ];
    let events = multiplex(&chunks);
    let stdout_count = events
        .iter()
        .filter(|e| e.stream == StreamKind::Stdout)
        .count();
    let stderr_count = events
        .iter()
        .filter(|e| e.stream == StreamKind::Stderr)
        .count();
    assert_eq!(stdout_count, 1);
    assert_eq!(stderr_count, 1);
}
