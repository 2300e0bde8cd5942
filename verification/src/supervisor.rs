//! The server process supervisor: the state machine that owns the lifecycle
//! of the single child process and serializes start, stop and restart
//! requests.
//!
//! The supervisor itself performs no operating-system work.  The caller
//! holds it behind one exclusive (asynchronous) lock, and under that lock
//! drives each lifecycle operation in steps: it asks the supervisor what to
//! do ([`Server::begin_start`]), performs the spawn, the grace wait, the
//! endpoint discovery and the settings probe, and reports the outcome back
//! ([`Server::finish_start`]), which decides the new state, the reply, and
//! whether the child must be killed.  Because every mutating step happens
//! under the lock, the transition functions below describe the complete
//! behaviour of the supervisor; the laws at the end of this module are
//! stated over serialized sequences of such steps.
//!
//! The state is the single source of truth for whether a child process is
//! believed alive, and it holds at most one process handle at any time: the
//! `Running` variant carries exactly one handle, and every transition out of
//! `Running` hands that handle back to the caller for termination, so a
//! process is never silently leaked.  When the supervisor is discarded, the
//! caller must first drive [`Server::stop`] and kill the returned handle.

use vstd::prelude::*;
use crate::config::ServerConfig;
use crate::probe::{SettingsData, SettingsError};

verus! {

/// Seconds the start sequence grants the spawned process to initialize
/// and announce its endpoint before readiness is judged (the grace
/// window).
pub const GRACE_WINDOW_SECS: u64 = 3;

/// Seconds a stop waits after killing the process for operating-system
/// resources to release before a new spawn is permitted (the settle
/// window).
pub const SETTLE_WINDOW_SECS: u64 = 6;

/// An opaque token for a spawned child process, chosen by the caller
/// (usually the operating-system process id).  The supervisor only stores
/// it and hands it back when the process must be killed or polled.
#[derive(Debug, Clone, Copy, PartialEq, Eq, Structural)]
pub struct ProcessHandle {
    pub pid: u64,
}

/// A snapshot describing a running server instance.  Immutable once
/// produced; callers receive copies, never the live state.
#[derive(Debug, Clone)]
pub struct ServerInfo {
    /// The configuration the server was started with.
    pub config: ServerConfig,
    /// The version string the server reported through the settings probe.
    pub version: String,
    /// The base URL at which the server is reachable, as reported by the
    /// settings probe (canonical, possibly different from discovery).
    pub base_url: String,
}

impl ServerInfo {
    /// An equal copy, field by field.
    pub fn duplicate(&self) -> (r: ServerInfo)
        ensures
            r == *self,
    {
        let r = ServerInfo {
            config: self.config.duplicate(),
            version: self.version.clone(),
            base_url: self.base_url.clone(),
        };
        proof {
            assert(r == *self);
        }
        r
    }
}

/// The lifecycle state.  Exactly one variant holds at any instant, and only
/// `Running` carries a process handle.
pub enum ServerState {
    /// No child process is attached.  Initial state.
    Stopped,
    /// A child process is attached and believed alive.
    Running { handle: ProcessHandle, info: ServerInfo },
}

/// Why a start request failed.  In every failure case the supervisor ends
/// `Stopped` and no process stays attached.
#[derive(Debug, Clone, PartialEq, Eq)]
pub enum StartError {
    /// The operating system refused to create the process.
    SpawnFailed,
    /// The process spawned but announced no endpoint within the grace
    /// window; it has been handed back for killing.
    NotReady,
    /// The endpoint was discovered but the settings probe failed; the
    /// process has been handed back for killing.
    Settings(SettingsError),
}

/// What a start request should do next, given the current state.
pub enum StartPlan {
    /// A server is already attached: return this snapshot, spawn nothing.
    AlreadyRunning(ServerInfo),
    /// Nothing is attached: spawn a process and report the outcome to
    /// [`Server::finish_start`].
    NeedsSpawn,
}

/// How far the world got after a spawn was requested.
pub enum ProbeOutcome {
    /// The grace window elapsed without a discovered endpoint.
    NoEndpoint,
    /// An endpoint was discovered and the settings probe ran, with this
    /// result.
    Settings(Result<SettingsData, SettingsError>),
}

/// The reported outcome of the whole spawn sequence.
pub enum SpawnOutcome {
    /// The operating system refused to create the process.
    Failed,
    /// The process was created under `handle`; `probe` says how discovery
    /// and the settings probe went.
    Spawned { handle: ProcessHandle, probe: ProbeOutcome },
}

/// The supervisor's answer to a completed start sequence.
pub struct StartCompletion {
    /// What the start call returns to its caller.
    pub result: Result<ServerInfo, StartError>,
    /// A process the caller must now kill: a spawned child whose start
    /// sequence failed must not be left attached nor leaked.
    pub kill: Option<ProcessHandle>,
}

/// The supervisor's answer to a stop request.
pub struct StopOutcome {
    /// `true` exactly when a running server was attached (the value the
    /// stop call returns to its caller).
    pub was_running: bool,
    /// The process the caller must now terminate, if one was attached.
    pub kill: Option<ProcessHandle>,
}

/// What a start request does, given the current state: an attached server
/// is returned as-is (idempotence); otherwise a spawn is called for.
pub open spec fn spec_begin_start(s: ServerState) -> StartPlan {
    match s {
        ServerState::Running { handle, info } => StartPlan::AlreadyRunning(info),
        ServerState::Stopped => StartPlan::NeedsSpawn,
    }
}

/// The snapshot a successful start produces: the supervisor's own
/// configuration plus exactly the version and base URL the probe reported.
pub open spec fn spec_info_of(config: ServerConfig, data: SettingsData) -> ServerInfo {
    ServerInfo { config, version: data.version, base_url: data.base_url }
}

/// How a completed spawn sequence is resolved: the new state, the reply,
/// and the process to kill (exactly when a process was spawned but the
/// start failed).
pub open spec fn spec_finish_start(config: ServerConfig, outcome: SpawnOutcome) -> (
    ServerState,
    Result<ServerInfo, StartError>,
    Option<ProcessHandle>,
) {
    match outcome {
        SpawnOutcome::Failed => (ServerState::Stopped, Err(StartError::SpawnFailed), None),
        SpawnOutcome::Spawned { handle, probe } => match probe {
            ProbeOutcome::NoEndpoint => (
                ServerState::Stopped,
                Err(StartError::NotReady),
                Some(handle),
            ),
            ProbeOutcome::Settings(res) => match res {
                Ok(data) => (
                    ServerState::Running { handle, info: spec_info_of(config, data) },
                    Ok(spec_info_of(config, data)),
                    None,
                ),
                Err(e) => (ServerState::Stopped, Err(StartError::Settings(e)), Some(handle)),
            },
        },
    }
}

/// What a stop request does: the state always becomes `Stopped`, and the
/// attached process, if any, is handed back for termination.  A failure to
/// kill is the caller's to log; it must not resurrect the `Running` claim.
pub open spec fn spec_stop(s: ServerState) -> (ServerState, StopOutcome) {
    match s {
        ServerState::Stopped => (
            ServerState::Stopped,
            StopOutcome { was_running: false, kill: None },
        ),
        ServerState::Running { handle, info } => (
            ServerState::Stopped,
            StopOutcome { was_running: true, kill: Some(handle) },
        ),
    }
}

/// What a status query does, given the liveness answer for the attached
/// process: a dead process is detached on the spot and `None` is reported.
pub open spec fn spec_status(s: ServerState, alive: bool) -> (ServerState, Option<ServerInfo>) {
    match s {
        ServerState::Stopped => (ServerState::Stopped, None),
        ServerState::Running { handle, info } => if alive {
            (s, Some(info))
        } else {
            (ServerState::Stopped, None)
        },
    }
}

/// The supervisor.  The caller keeps it behind one exclusive lock; all
/// methods below are total and never panic.
pub struct Server {
    config: ServerConfig,
    state: ServerState,
}

impl Server {
    /// The current lifecycle state (abstract view).
    pub closed spec fn state(&self) -> ServerState {
        self.state
    }

    /// The configuration every spawned server uses (abstract view).
    pub closed spec fn config(&self) -> ServerConfig {
        self.config
    }

    /// A fresh supervisor always begins `Stopped`, whatever processes an
    /// earlier instance may have left behind.
    pub fn new(config: ServerConfig) -> (r: Server)
        ensures
            r.state() is Stopped,
            r.config() == config,
    {
        Server { config, state: ServerState::Stopped }
    }

    /// The configuration every spawned server uses; the caller builds the
    /// child process command from it.
    pub fn config_ref(&self) -> (r: &ServerConfig)
        ensures
            *r == self.config(),
    {
        &self.config
    }

    /// First step of a start request.  Read-only: a supervisor that is
    /// already `Running` answers with the existing snapshot and no spawn
    /// happens, which makes serialized start requests idempotent.
    pub fn begin_start(&self) -> (r: StartPlan)
        ensures
            r == spec_begin_start(self.state()),
    {
        match &self.state {
            ServerState::Running { handle: _, info } => StartPlan::AlreadyRunning(
                info.duplicate(),
            ),
            ServerState::Stopped => StartPlan::NeedsSpawn,
        }
    }

    /// Second step of a start request, after [`Server::begin_start`] asked
    /// for a spawn and the caller performed it.  Decides the new state, the
    /// reply, and whether the spawned process must now be killed: a process
    /// that was spawned but did not become ready is never left attached and
    /// never leaked.
    pub fn finish_start(&mut self, outcome: SpawnOutcome) -> (r: StartCompletion)
        requires
            old(self).state() is Stopped,
        ensures
            (final(self).state(), r.result, r.kill) == spec_finish_start(
                old(self).config(),
                outcome,
            ),
            final(self).config() == old(self).config(),
    {
        match outcome {
            SpawnOutcome::Failed => StartCompletion {
                result: Err(StartError::SpawnFailed),
                kill: None,
            },
            SpawnOutcome::Spawned { handle, probe } => match probe {
                ProbeOutcome::NoEndpoint => StartCompletion {
                    result: Err(StartError::NotReady),
                    kill: Some(handle),
                },
                ProbeOutcome::Settings(res) => match res {
                    Ok(data) => {
                        let info = ServerInfo {
                            config: self.config.duplicate(),
                            version: data.version,
                            base_url: data.base_url,
                        };
                        self.state = ServerState::Running { handle, info: info.duplicate() };
                        StartCompletion { result: Ok(info), kill: None }
                    },
                    Err(e) => StartCompletion {
                        result: Err(StartError::Settings(e)),
                        kill: Some(handle),
                    },
                },
            },
        }
    }

    /// A stop request.  On a `Stopped` supervisor it is a no-op that
    /// answers `false` and performs no process operation; otherwise the
    /// attached process is detached and handed back for termination, and
    /// the state becomes `Stopped` whether or not that kill later succeeds.
    pub fn stop(&mut self) -> (r: StopOutcome)
        ensures
            (final(self).state(), r) == spec_stop(old(self).state()),
            final(self).config() == old(self).config(),
    {
        match &self.state {
            ServerState::Stopped => StopOutcome { was_running: false, kill: None },
            ServerState::Running { handle, info: _ } => {
                let h = *handle;
                self.state = ServerState::Stopped;
                StopOutcome { was_running: true, kill: Some(h) }
            },
        }
    }

    /// The handle the caller should run its liveness check against, if a
    /// process is attached.  Read-only.
    pub fn current_handle(&self) -> (r: Option<ProcessHandle>)
        ensures
            r == match self.state() {
                ServerState::Running { handle, info } => Some(handle),
                ServerState::Stopped => None,
            },
    {
        match &self.state {
            ServerState::Running { handle, info: _ } => Some(*handle),
            ServerState::Stopped => None,
        }
    }

    /// A status query, fed with the liveness answer for the attached
    /// process (`alive` is ignored when nothing is attached).  If the
    /// process exited without an explicit stop, this is where the
    /// supervisor notices: the dead process is detached and `None` is
    /// reported, so a following start request spawns afresh.
    pub fn status(&mut self, alive: bool) -> (r: Option<ServerInfo>)
        ensures
            (final(self).state(), r) == spec_status(old(self).state(), alive),
            final(self).config() == old(self).config(),
    {
        let snapshot = match &self.state {
            ServerState::Stopped => None,
            ServerState::Running { handle: _, info } => {
                if alive {
                    Some(info.duplicate())
                } else {
                    None
                }
            },
        };
        if snapshot.is_none() {
            self.state = ServerState::Stopped;
        }
        snapshot
    }
}

/// One serialized start call, as driven under the supervisor's lock: if a
/// server is already attached its snapshot is returned and nothing is
/// spawned; otherwise a spawn happens and `outcome` reports how it went.
/// The third component records whether this call spawned a process.
pub open spec fn spec_start_call(config: ServerConfig, s: ServerState, outcome: SpawnOutcome) -> (
    ServerState,
    Result<ServerInfo, StartError>,
    bool,
) {
    match spec_begin_start(s) {
        StartPlan::AlreadyRunning(info) => (s, Ok(info), false),
        StartPlan::NeedsSpawn => {
            let (st, res, kill) = spec_finish_start(config, outcome);
            (st, res, true)
        },
    }
}

/// A serialized sequence of start calls: the final state, every call's
/// reply in order, and how many processes were spawned in total.
pub open spec fn spec_run_starts(
    config: ServerConfig,
    s: ServerState,
    outcomes: Seq<SpawnOutcome>,
) -> (ServerState, Seq<Result<ServerInfo, StartError>>, int)
    decreases outcomes.len(),
{
    if outcomes.len() == 0 {
        (s, Seq::empty(), 0)
    } else {
        let call = spec_start_call(config, s, outcomes[0]);
        let rest = spec_run_starts(config, call.0, outcomes.drop_first());
        (rest.0, seq![call.1].add(rest.1), (if call.2 {
            1int
        } else {
            0int
        }) + rest.2)
    }
}

/// While a server is attached, start calls change nothing: none of them
/// spawns, and every one returns the same snapshot that is attached.
pub proof fn lemma_running_starts_are_noops(
    config: ServerConfig,
    s: ServerState,
    outcomes: Seq<SpawnOutcome>,
)
    requires
        s is Running,
    ensures
        ({
            let run = spec_run_starts(config, s, outcomes);
            &&& run.0 == s
            &&& run.2 == 0
            &&& run.1.len() == outcomes.len()
            &&& forall|i: int|
                0 <= i < outcomes.len() ==> run.1[i] == Ok::<ServerInfo, StartError>(
                    spec_begin_start(s)->AlreadyRunning_0,
                )
        }),
    decreases outcomes.len(),
{
    if outcomes.len() > 0 {
        lemma_running_starts_are_noops(config, s, outcomes.drop_first());
    }
}

/// For every serialized sequence of start calls issued while stopped whose
/// first call succeeds, exactly one process is spawned over the whole
/// sequence, and every call returns the same `Ok` snapshot as the first.
/// Concurrent start calls are serialized by the supervisor's lock, so this
/// covers them: the first one to take the lock spawns, the rest observe the
/// running server.
pub proof fn lemma_serialized_starts_spawn_once(
    config: ServerConfig,
    outcomes: Seq<SpawnOutcome>,
)
    requires
        outcomes.len() >= 1,
        spec_start_call(config, ServerState::Stopped, outcomes[0]).0 is Running,
    ensures
        ({
            let first = spec_start_call(config, ServerState::Stopped, outcomes[0]);
            let run = spec_run_starts(config, ServerState::Stopped, outcomes);
            &&& run.2 == 1
            &&& first.1 is Ok
            &&& run.1.len() == outcomes.len()
            &&& forall|i: int| 0 <= i < outcomes.len() ==> run.1[i] == first.1
            &&& run.0 == first.0
        }),
{
    let first = spec_start_call(config, ServerState::Stopped, outcomes[0]);
    lemma_running_starts_are_noops(config, first.0, outcomes.drop_first());
}

/// One step of the supervisor's life, as the application drives it under
/// the lock: a start request (with the outcome the world produces if a
/// spawn turns out to be needed), a stop request, or a status query (with
/// the liveness answer for the attached process).
pub enum SupervisorOp {
    Start(SpawnOutcome),
    Stop,
    Status(bool),
}

/// The number of processes attached to a state: one while `Running`,
/// none otherwise.
pub open spec fn spec_attached(s: ServerState) -> int {
    if s is Running {
        1
    } else {
        0
    }
}

/// One operation's effect: the state it leaves, how many processes it
/// spawned, and how many it let go of — handed back for killing, or
/// observed dead by the liveness check.
pub open spec fn spec_op_effect(config: ServerConfig, s: ServerState, op: SupervisorOp) -> (
    ServerState,
    int,
    int,
) {
    match op {
        SupervisorOp::Start(outcome) => match spec_begin_start(s) {
            StartPlan::AlreadyRunning(info) => (s, 0, 0),
            StartPlan::NeedsSpawn => {
                let (st, res, kill) = spec_finish_start(config, outcome);
                (
                    st,
                    if outcome is Spawned {
                        1int
                    } else {
                        0int
                    },
                    if kill is Some {
                        1int
                    } else {
                        0int
                    },
                )
            },
        },
        SupervisorOp::Stop => {
            let (st, outcome) = spec_stop(s);
            (
                st,
                0,
                if outcome.kill is Some {
                    1int
                } else {
                    0int
                },
            )
        },
        SupervisorOp::Status(alive) => {
            let (st, snapshot) = spec_status(s, alive);
            (st, 0, spec_attached(s) - spec_attached(st))
        },
    }
}

/// A serialized run of operations: the final state, the total number of
/// processes spawned, and the total number let go of.
pub open spec fn spec_run_ops(config: ServerConfig, s: ServerState, ops: Seq<SupervisorOp>) -> (
    ServerState,
    int,
    int,
)
    decreases ops.len(),
{
    if ops.len() == 0 {
        (s, 0, 0)
    } else {
        let step = spec_op_effect(config, s, ops[0]);
        let rest = spec_run_ops(config, step.0, ops.drop_first());
        (rest.0, step.1 + rest.1, step.2 + rest.2)
    }
}

/// Bookkeeping behind the leak-freedom law: over any serialized run, the
/// difference between processes spawned and processes let go of is
/// exactly the change in how many are attached.
pub proof fn lemma_process_accounting(config: ServerConfig, s: ServerState, ops: Seq<SupervisorOp>)
    ensures
        ({
            let run = spec_run_ops(config, s, ops);
            run.1 - run.2 == spec_attached(run.0) - spec_attached(s)
        }),
    decreases ops.len(),
{
    if ops.len() > 0 {
        let step = spec_op_effect(config, s, ops[0]);
        lemma_process_accounting(config, step.0, ops.drop_first());
    }
}

/// No process is ever silently leaked: over every serialized sequence of
/// start, stop and status operations from the initial state, every
/// process that was spawned is accounted for — it is the one still
/// attached, or it was handed back to the caller for killing, or its
/// death was observed by a liveness check.  At most one process is
/// attached at any point, since only the `Running` state carries one.
pub proof fn lemma_no_process_leaked(config: ServerConfig, ops: Seq<SupervisorOp>)
    ensures
        ({
            let run = spec_run_ops(config, ServerState::Stopped, ops);
            run.1 == run.2 + spec_attached(run.0)
        }),
{
    lemma_process_accounting(config, ServerState::Stopped, ops);
}

/// A stop request on an already-stopped supervisor answers `false` and
/// performs no process operation at all.
pub proof fn lemma_stop_when_stopped_is_noop()
    ensures
        spec_stop(ServerState::Stopped) == (
            ServerState::Stopped,
            StopOutcome { was_running: false, kill: None },
        ),
{
}

/// A restart always reaches the start attempt: whatever state the stop
/// step found, and however the caller's kill of the returned handle goes
/// (a kill failure is logged, not propagated into the state), the stop
/// step leaves the supervisor `Stopped`, and the start step that follows
/// in the same restart therefore always asks for a fresh spawn.
pub proof fn lemma_restart_always_attempts_start(s: ServerState)
    ensures
        spec_stop(s).0 == ServerState::Stopped,
        spec_begin_start(spec_stop(s).0) == StartPlan::NeedsSpawn,
{
}

/// After a successful start, a status query that finds the process alive
/// reports exactly the snapshot the start returned: the version and base
/// URL are the ones the settings probe reported.
pub proof fn lemma_status_reflects_probe(
    config: ServerConfig,
    handle: ProcessHandle,
    data: SettingsData,
)
    ensures
        ({
            let outcome = SpawnOutcome::Spawned {
                handle,
                probe: ProbeOutcome::Settings(Ok(data)),
            };
            let (st, res, kill) = spec_finish_start(config, outcome);
            let (st2, snap) = spec_status(st, true);
            &&& res == Ok::<ServerInfo, StartError>(spec_info_of(config, data))
            &&& kill is None
            &&& snap == Some(spec_info_of(config, data))
            &&& spec_info_of(config, data).version == data.version
            &&& spec_info_of(config, data).base_url == data.base_url
            &&& st2 == st
        }),
{
}

/// A start whose grace window elapsed without a discovered endpoint —
/// because no valid sentinel line ever appeared (see
/// [`crate::watcher::lemma_no_sentinel_no_discovery`]) — fails with
/// `NotReady`, leaves the supervisor `Stopped`, and hands the spawned
/// process back for killing: nothing stays attached.
pub proof fn lemma_no_endpoint_start_not_ready(config: ServerConfig, handle: ProcessHandle)
    ensures
        spec_finish_start(
            config,
            SpawnOutcome::Spawned { handle, probe: ProbeOutcome::NoEndpoint },
        ) == (
            ServerState::Stopped,
            Err::<ServerInfo, StartError>(StartError::NotReady),
            Some(handle),
        ),
{
}

/// If the process exits behind the supervisor's back, the next status
/// query detects it: the dead process is detached, `None` is reported, and
/// the start request that follows asks for a fresh spawn.
pub proof fn lemma_unexpected_exit_detected(s: ServerState)
    requires
        s is Running,
    ensures
        spec_status(s, false) == (ServerState::Stopped, None::<ServerInfo>),
        spec_begin_start(spec_status(s, false).0) == StartPlan::NeedsSpawn,
{
}

} // verus!
