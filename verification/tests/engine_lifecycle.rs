//! The lifecycle state machine on concrete runs: idempotent start, no-op
//! stop, spawn failure, restart, and the configuration round trip.

use heyi_admin::engine::{
    EngineConfig, EngineProcess, ProcessHandle, StartError, StartPlan, StopError, StopOutcome,
};
use heyi_admin::models::EngineAction;

fn sample_config() -> EngineConfig {
    EngineConfig {
        model_path: "/models/x".to_string(),
        model_name: "deepseek".to_string(),
        host: "127.0.0.1".to_string(),
        port: 10814,
        num_cpu_threads: 8,
        max_batch_size: 4,
        api_key: None,
        max_length: None,
        max_new_tokens: None,
        prefill_chunk_size: None,
        use_cuda_graph: None,
    }
}

#[test]
fn launch_command_is_exact() {
    let mgr = EngineProcess::new(sample_config());
    match mgr.start_plan() {
        StartPlan::Launch(args) => {
            assert_eq!(
                args,
                vec![
                    "server/main.py",
                    "/models/x",
                    "--model-name",
                    "deepseek",
                    "--host",
                    "127.0.0.1",
                    "--port",
                    "10814",
                    "--num-cpu-threads",
                    "8",
                    "--max-batch-size",
                    "4",
                ]
            );
        }
        StartPlan::AlreadyRunning => panic!("a stopped manager must plan a launch"),
    }
}

#[test]
fn launch_command_appends_api_key() {
    let mut config = sample_config();
    config.api_key = Some("sekret".to_string());
    let mgr = EngineProcess::new(config);
    match mgr.start_plan() {
        StartPlan::Launch(args) => {
            assert_eq!(args.len(), 14);
            assert_eq!(args[12], "--api-key");
            assert_eq!(args[13], "sekret");
        }
        StartPlan::AlreadyRunning => panic!("a stopped manager must plan a launch"),
    }
}

#[test]
fn start_twice_is_idempotent() {
    let mut mgr = EngineProcess::new(sample_config());

    // First start: the plan says spawn; the spawn succeeds.
    assert!(matches!(mgr.start_plan(), StartPlan::Launch(_)));
    assert_eq!(mgr.finish_start(Ok(ProcessHandle { pid: 101 })), Ok(()));
    assert!(mgr.get_status().is_running);

    // Second start without an intervening stop: no spawn, still success,
    // exactly one live handle.
    assert!(matches!(mgr.start_plan(), StartPlan::AlreadyRunning));
    assert!(mgr.get_status().is_running);
    assert_eq!(mgr.stop_plan(), Some(ProcessHandle { pid: 101 }));
}

#[test]
fn spawn_failure_leaves_stopped() {
    let mut mgr = EngineProcess::new(sample_config());
    let r = mgr.finish_start(Err("binary missing".to_string()));
    assert_eq!(r, Err(StartError::SpawnFailed("binary missing".to_string())));
    assert!(!mgr.get_status().is_running);
    // The failed start must be re-issued; nothing retries automatically.
    assert!(matches!(mgr.start_plan(), StartPlan::Launch(_)));
}

#[test]
fn stop_on_stopped_is_a_noop() {
    let mgr = EngineProcess::new(sample_config());
    // No handle: nothing to signal, success as a no-op, state stays Stopped.
    assert_eq!(mgr.stop_plan(), None);
    assert!(!mgr.get_status().is_running);
}

#[test]
fn stop_clears_the_handle_even_on_failure() {
    let mut mgr = EngineProcess::new(sample_config());
    mgr.finish_start(Ok(ProcessHandle { pid: 7 })).unwrap();

    assert_eq!(mgr.stop_plan(), Some(ProcessHandle { pid: 7 }));
    assert_eq!(
        mgr.finish_stop(StopOutcome::SignalFailed),
        Err(StopError::SignalFailed)
    );
    // Cleared regardless: no stuck Running state.
    assert!(!mgr.get_status().is_running);

    mgr.finish_start(Ok(ProcessHandle { pid: 8 })).unwrap();
    assert_eq!(
        mgr.finish_stop(StopOutcome::WaitFailed),
        Err(StopError::WaitFailed)
    );
    assert!(!mgr.get_status().is_running);

    mgr.finish_start(Ok(ProcessHandle { pid: 9 })).unwrap();
    assert_eq!(mgr.finish_stop(StopOutcome::Exited), Ok(()));
    assert!(!mgr.get_status().is_running);
}

#[test]
fn restart_sequence_swaps_the_handle() {
    let mut mgr = EngineProcess::new(sample_config());
    mgr.finish_start(Ok(ProcessHandle { pid: 1 })).unwrap();

    // Restart: stop, then start, as two serialized operations.
    assert_eq!(mgr.stop_plan(), Some(ProcessHandle { pid: 1 }));
    mgr.finish_stop(StopOutcome::Exited).unwrap();
    assert!(matches!(mgr.start_plan(), StartPlan::Launch(_)));
    mgr.finish_start(Ok(ProcessHandle { pid: 2 })).unwrap();

    assert_eq!(mgr.stop_plan(), Some(ProcessHandle { pid: 2 }));
    assert!(mgr.get_status().is_running);
}

#[test]
fn config_round_trip() {
    let mut mgr = EngineProcess::new(EngineConfig::default());
    let c = sample_config();
    mgr.update_config(c.duplicate());
    assert_eq!(mgr.get_config(), c);
    // Updating while running does not restart the engine.
    mgr.finish_start(Ok(ProcessHandle { pid: 3 })).unwrap();
    let mut c2 = sample_config();
    c2.port = 9999;
    mgr.update_config(c2.duplicate());
    assert_eq!(mgr.get_config(), c2);
    assert!(mgr.get_status().is_running);
}

#[test]
fn control_actions_parse_exactly() {
    assert_eq!(EngineAction::from_tag("start"), Some(EngineAction::Start));
    assert_eq!(EngineAction::from_tag("stop"), Some(EngineAction::Stop));
    assert_eq!(EngineAction::from_tag("restart"), Some(EngineAction::Restart));
    assert_eq!(EngineAction::from_tag("Start"), None);
    assert_eq!(EngineAction::from_tag("pause"), None);
    assert_eq!(EngineAction::from_tag(""), None);
}

#[test]
fn default_config_is_empty() {
    let c = EngineConfig::default();
    assert_eq!(c.model_path, "");
    assert_eq!(c.model_name, "");
    assert_eq!(c.host, "");
    assert_eq!(c.port, 0);
    assert_eq!(c.num_cpu_threads, 0);
    assert_eq!(c.max_batch_size, 0);
    assert_eq!(c.api_key, None);
}

#[test]
fn status_snapshot_pairs_handle_and_config() {
    let mut mgr = EngineProcess::new(sample_config());
    let status = mgr.get_status();
    assert!(!status.is_running);
    assert_eq!(status.config, sample_config());
    mgr.finish_start(Ok(ProcessHandle { pid: 4 })).unwrap();
    let status = mgr.get_status();
    assert!(status.is_running);
    assert_eq!(status.config, sample_config());
}
