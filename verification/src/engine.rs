//! The engine lifecycle manager: a single supervised compute-engine
//! process, its configuration, and the start/stop/restart state machine.
//!
//! The manager's state lives in [`EngineProcess`].  The shell around the
//! library wraps one `EngineProcess` in an exclusive lock and serializes
//! every mutating call; it performs the actual spawn and kill between the
//! `*_plan` and `finish_*` halves of each operation, so each decision made
//! here is exact while the operating-system work stays outside.  Absence of
//! a handle is the one canonical "stopped" signal: there is no separate
//! status flag to drift out of sync.

use vstd::prelude::*;
use crate::numfmt::dec_of;

verus! {

/// The engine launch configuration, replaced wholesale on update.
#[derive(Debug, PartialEq, Eq)]
pub struct EngineConfig {
    pub model_path: String,
    pub model_name: String,
    pub host: String,
    pub port: u16,
    pub num_cpu_threads: usize,
    pub max_batch_size: usize,
    pub api_key: Option<String>,
    pub max_length: Option<usize>,
    pub max_new_tokens: Option<usize>,
    pub prefill_chunk_size: Option<usize>,
    pub use_cuda_graph: Option<bool>,
}

impl EngineConfig {
    /// A field-for-field copy, equal to the original.
    pub fn duplicate(&self) -> (r: EngineConfig)
        ensures
            r == *self,
    {
        EngineConfig {
            model_path: self.model_path.clone(),
            model_name: self.model_name.clone(),
            host: self.host.clone(),
            port: self.port,
            num_cpu_threads: self.num_cpu_threads,
            max_batch_size: self.max_batch_size,
            api_key: match &self.api_key {
                Some(k) => Some(k.clone()),
                None => None,
            },
            max_length: self.max_length,
            max_new_tokens: self.max_new_tokens,
            prefill_chunk_size: self.prefill_chunk_size,
            use_cuda_graph: self.use_cuda_graph,
        }
    }
}

impl Default for EngineConfig {
    /// The empty configuration the manager begins with.
    fn default() -> (r: EngineConfig)
        ensures
            r.model_path@ == Seq::<char>::empty(),
            r.model_name@ == Seq::<char>::empty(),
            r.host@ == Seq::<char>::empty(),
            r.port == 0,
            r.num_cpu_threads == 0,
            r.max_batch_size == 0,
            r.api_key is None,
            r.max_length is None,
            r.max_new_tokens is None,
            r.prefill_chunk_size is None,
            r.use_cuda_graph is None,
    {
        EngineConfig {
            model_path: String::new(),
            model_name: String::new(),
            host: String::new(),
            port: 0,
            num_cpu_threads: 0,
            max_batch_size: 0,
            api_key: None,
            max_length: None,
            max_new_tokens: None,
            prefill_chunk_size: None,
            use_cuda_graph: None,
        }
    }
}

/// Stands for one live operating-system process.  The shell keeps the real
/// child beside the manager and tags it with this identifier.
#[derive(Clone, Copy, Debug, PartialEq, Eq, Structural)]
pub struct ProcessHandle {
    pub pid: u64,
}

/// The single supervised process slot with its paired configuration — the
/// one piece of shared mutable state in the system.
pub struct EngineProcess {
    pub process: Option<ProcessHandle>,
    pub config: EngineConfig,
}

/// Why a start failed.  Spawning is the only thing that can fail; the
/// state is left `Stopped`.
#[derive(Debug, PartialEq, Eq)]
pub enum StartError {
    SpawnFailed(String),
}

/// Why a stop failed.  The handle is cleared regardless, so a process that
/// cannot be controlled never leaves the manager stuck `Running`.
#[derive(Clone, Copy, Debug, PartialEq, Eq, Structural)]
pub enum StopError {
    SignalFailed,
    WaitFailed,
}

/// What the shell observed while terminating the process.
#[derive(Clone, Copy, Debug, PartialEq, Eq, Structural)]
pub enum StopOutcome {
    Exited,
    SignalFailed,
    WaitFailed,
}

/// The decision of a `start` call.
pub enum StartPlan {
    /// A handle is already present: idempotent success, nothing is spawned.
    AlreadyRunning,
    /// No handle: spawn exactly this command line.
    Launch(Vec<String>),
}

/// A status snapshot: whether a handle is live, and the configuration.
#[derive(Debug, PartialEq, Eq)]
pub struct EngineProcessStatus {
    pub is_running: bool,
    pub config: EngineConfig,
}

/// The command line that launches the engine under configuration `c`:
/// the server script, the positional model path, and one flag per field,
/// with the API key appended only when one is set.
pub open spec fn launch_args_spec(c: EngineConfig) -> Seq<Seq<char>> {
    let base = seq![
        "server/main.py"@,
        c.model_path@,
        "--model-name"@,
        c.model_name@,
        "--host"@,
        c.host@,
        "--port"@,
        dec_of(c.port as nat),
        "--num-cpu-threads"@,
        dec_of(c.num_cpu_threads as nat),
        "--max-batch-size"@,
        dec_of(c.max_batch_size as nat),
    ];
    match c.api_key {
        Some(k) => base + seq!["--api-key"@, k@],
        None => base,
    }
}

/// State after a start whose spawn (if one was needed) succeeded with
/// handle `h`.
pub open spec fn spec_start_ok(m: EngineProcess, h: ProcessHandle) -> EngineProcess {
    if m.running() {
        m
    } else {
        EngineProcess { process: Some(h), ..m }
    }
}

/// Whether a start from state `m` spawns a process at all.
pub open spec fn spec_start_spawns(m: EngineProcess) -> bool {
    !m.running()
}

/// State after any stop: the slot is empty, the configuration untouched.
pub open spec fn spec_stop(m: EngineProcess) -> EngineProcess {
    EngineProcess { process: None, ..m }
}

impl EngineProcess {
    /// A handle is present and the process is assumed alive.
    pub open spec fn running(self) -> bool {
        self.process is Some
    }

    pub fn new(config: EngineConfig) -> (r: EngineProcess)
        ensures
            !r.running(),
            r.config == config,
    {
        EngineProcess { process: None, config }
    }

    /// The check-then-act half of `start`, made under the exclusive lock:
    /// an existing handle means idempotent success; otherwise the launch
    /// command is built from the current configuration.
    pub fn start_plan(&self) -> (r: StartPlan)
        ensures
            self.running() ==> (r is AlreadyRunning),
            !self.running() ==> match r {
                StartPlan::Launch(args) => args.deep_view() == launch_args_spec(self.config),
                StartPlan::AlreadyRunning => false,
            },
            (r is Launch) == spec_start_spawns(*self),
    {
        if self.process.is_some() {
            return StartPlan::AlreadyRunning;
        }
        let mut args: Vec<String> = Vec::new();
        args.push(String::from_str("server/main.py"));
        args.push(self.config.model_path.clone());
        args.push(String::from_str("--model-name"));
        args.push(self.config.model_name.clone());
        args.push(String::from_str("--host"));
        args.push(self.config.host.clone());
        args.push(String::from_str("--port"));
        args.push(crate::numfmt::u64_to_dec(self.config.port as u64));
        args.push(String::from_str("--num-cpu-threads"));
        args.push(crate::numfmt::u64_to_dec(self.config.num_cpu_threads as u64));
        args.push(String::from_str("--max-batch-size"));
        args.push(crate::numfmt::u64_to_dec(self.config.max_batch_size as u64));
        match &self.config.api_key {
            Some(k) => {
                args.push(String::from_str("--api-key"));
                args.push(k.clone());
            },
            None => {},
        }
        proof {
            assert(args.deep_view() =~= launch_args_spec(self.config));
        }
        StartPlan::Launch(args)
    }

    /// Records what the spawn came to.  On success the handle fills the
    /// slot; on failure the state stays `Stopped` and the reason is
    /// surfaced, never swallowed.
    pub fn finish_start(&mut self, outcome: Result<ProcessHandle, String>) -> (r: Result<
        (),
        StartError,
    >)
        requires
            !old(self).running(),
        ensures
            final(self).config == old(self).config,
            match outcome {
                Ok(h) => *final(self) == spec_start_ok(*old(self), h) && r == Ok::<(), StartError>(
                    (),
                ),
                Err(e) => !final(self).running() && *final(self) == *old(self) && match r {
                    Err(StartError::SpawnFailed(m)) => m == e,
                    _ => false,
                },
            },
    {
        match outcome {
            Ok(h) => {
                self.process = Some(h);
                Ok(())
            },
            Err(e) => Err(StartError::SpawnFailed(e)),
        }
    }

    /// The check half of `stop`, made under the exclusive lock: the handle
    /// to terminate, or nothing — stopping a stopped engine is a no-op.
    pub fn stop_plan(&self) -> (r: Option<ProcessHandle>)
        ensures
            r == self.process,
    {
        self.process
    }

    /// Clears the slot whatever the termination came to, and maps the
    /// observed failure, if any, to its typed error.
    pub fn finish_stop(&mut self, outcome: StopOutcome) -> (r: Result<(), StopError>)
        ensures
            *final(self) == spec_stop(*old(self)),
            !final(self).running(),
            final(self).config == old(self).config,
            match outcome {
                StopOutcome::Exited => r == Ok::<(), StopError>(()),
                StopOutcome::SignalFailed => r == Err::<(), StopError>(StopError::SignalFailed),
                StopOutcome::WaitFailed => r == Err::<(), StopError>(StopError::WaitFailed),
            },
    {
        self.process = None;
        match outcome {
            StopOutcome::Exited => Ok(()),
            StopOutcome::SignalFailed => Err(StopError::SignalFailed),
            StopOutcome::WaitFailed => Err(StopError::WaitFailed),
        }
    }

    /// A snapshot read under a shared lock; never blocks on process I/O.
    pub fn get_status(&self) -> (r: EngineProcessStatus)
        ensures
            r.is_running == self.running(),
            r.config == self.config,
    {
        EngineProcessStatus { is_running: self.process.is_some(), config: self.config.duplicate() }
    }

    pub fn get_config(&self) -> (r: EngineConfig)
        ensures
            r == self.config,
    {
        self.config.duplicate()
    }

    /// Replaces the configuration wholesale.  The running process, if any,
    /// is untouched: applying the new configuration takes an explicit
    /// restart.
    pub fn update_config(&mut self, config: EngineConfig)
        ensures
            final(self).config == config,
            final(self).process == old(self).process,
    {
        self.config = config;
    }
}

/// Starting twice without an intervening stop: the second call changes
/// nothing and spawns nothing — however the two calls are serialized by
/// the lock, exactly one live process results and both calls succeed.
pub proof fn lemma_start_idempotent(m: EngineProcess, h1: ProcessHandle, h2: ProcessHandle)
    ensures
        spec_start_ok(spec_start_ok(m, h1), h2) == spec_start_ok(m, h1),
        spec_start_ok(m, h1).running(),
        !spec_start_spawns(spec_start_ok(m, h1)),
{
}

/// Mutual exclusion of two starts against an empty manager: the lock
/// serializes them, the first spawns, and the second then sees the handle
/// and spawns nothing — never two processes.
pub proof fn lemma_start_mutual_exclusion(m: EngineProcess, h1: ProcessHandle, h2: ProcessHandle)
    requires
        !m.running(),
    ensures
        spec_start_spawns(m),
        !spec_start_spawns(spec_start_ok(m, h1)),
        spec_start_ok(spec_start_ok(m, h1), h2).process == Some(h1),
{
}

/// Stopping a stopped manager is a no-op: the state is unchanged and still
/// `Stopped`, and `stop_plan` offers no handle to signal.
pub proof fn lemma_stop_noop(m: EngineProcess)
    requires
        !m.running(),
    ensures
        spec_stop(m) == m,
        !spec_stop(m).running(),
{
}

/// Replacing the configuration and then reading it back returns exactly
/// the configuration that was written, with the process slot untouched.
pub proof fn lemma_config_round_trip(m: EngineProcess, c: EngineConfig)
    ensures
        (EngineProcess { config: c, ..m }).config == c,
        (EngineProcess { config: c, ..m }).process == m.process,
{
}

/// A restart — stop, then start — leaves the engine running under the
/// fresh handle, with the configuration it had.
pub proof fn lemma_restart(m: EngineProcess, h: ProcessHandle)
    ensures
        spec_start_ok(spec_stop(m), h).process == Some(h),
        spec_start_ok(spec_stop(m), h).config == m.config,
{
}

} // verus!
