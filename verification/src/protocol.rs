//! What the service state machines and the surrounding program say to each other.
//!
//! Every sequence in this library is a state machine. A state names the one
//! action that the surrounding program has to perform next ([`Action`]); the
//! program performs it and reports what happened as an [`Event`]; the machine
//! moves on. An event that does not answer the pending action changes nothing.

use vstd::prelude::*;
use crate::port_guard::{owner_pids, port_owners_in_output};
use crate::text::{decode_lossy, lossy_text};

verus! {

/// The port the local database engine listens on.
pub const DATABASE_PORT: u16 = 5432;

/// The port the backend service listens on.
pub const BACKEND_PORT: u16 = 8000;

/// How long to wait, after killing a port's owners, before looking at the port again.
pub const PORT_SETTLE_MILLIS: u64 = 500;

/// How long the database is given to accept connections before the backend starts.
pub const DATABASE_GRACE_MILLIS: u64 = 3000;

/// What the surrounding program has to do next.
#[derive(Debug, Clone, Copy, PartialEq, Eq, Structural)]
pub enum Action {
    /// Try to bind the port locally and release it again.
    CheckPort { port: u16 },
    /// Ask the operating system which processes hold the port.
    ListPortOwners { port: u16 },
    /// Force-terminate one process.
    KillProcess { pid: i32 },
    /// Let the given time pass.
    Sleep { millis: u64 },
    /// Run a trivial query against whatever database answers on the database port.
    ProbeExistingDatabase,
    /// Find the data directory and the bundled database binaries.
    LocateResources,
    /// Look whether the database's data directory exists.
    CheckDataDir,
    /// Create the database's data directory.
    CreateDataDir,
    /// Run the engine's initialisation routine on the data directory.
    RunInitdb,
    /// Ask the engine to start and to wait until it is ready.
    RunPgCtlStart,
    /// Ask the engine for a fast shutdown.
    RunPgCtlStop,
    /// Spawn the backend process with its environment.
    SpawnBackend,
    /// Let go of the backend; the host tears the child down when the application exits.
    ReleaseBackend,
    /// Nothing is left to do.
    Finish,
}

/// How an external command ended.
#[derive(Debug, Clone, PartialEq, Eq)]
pub enum CommandOutcome {
    /// The command ran to its end.
    Exited { success: bool, stderr: String },
    /// The command could not be launched.
    NotRun { reason: String },
}

/// Where a backend launch failed.
#[derive(Debug, Clone, PartialEq, Eq)]
pub enum SpawnFailure {
    /// The launch command could not be put together.
    Command { reason: String },
    /// The process could not be spawned.
    Spawn { reason: String },
}

/// What a search for the database's files found.
#[derive(Debug, Clone, PartialEq, Eq)]
pub struct Located {
    /// Why the application's data directory is unknown, if it is.
    pub data_location_error: Option<String>,
    /// Whether the initialisation binary exists.
    pub initdb: bool,
    /// Whether the control binary exists.
    pub pg_ctl: bool,
    /// Whether the resource directory is known.
    pub resource_dir: bool,
}

/// What happened when the surrounding program performed an [`Action`].
#[derive(Debug, Clone, PartialEq, Eq)]
pub enum Event {
    /// Answers `CheckPort`.
    PortChecked { free: bool },
    /// Answers `ListPortOwners`; `None` where the platform cannot tell or the listing failed.
    OwnersListed { owners: Option<Vec<i32>> },
    /// Answers `KillProcess`; whether the kill worked is not reported.
    ProcessKilled,
    /// Answers `Sleep`.
    Slept,
    /// Answers `ProbeExistingDatabase`.
    ExistingProbed { compatible: bool },
    /// Answers `LocateResources`.
    ResourcesLocated { located: Located },
    /// Answers `CheckDataDir`.
    DataDirChecked { exists: bool },
    /// Answers `CreateDataDir`; `error` says why it failed, if it did.
    DataDirCreated { error: Option<String> },
    /// Answers `RunInitdb`.
    InitdbFinished { outcome: CommandOutcome },
    /// Answers `RunPgCtlStart`.
    PgCtlStartFinished { outcome: CommandOutcome },
    /// Answers `RunPgCtlStop`; a failed stop is not reported.
    PgCtlStopFinished,
    /// Answers `SpawnBackend`.
    BackendSpawned { failure: Option<SpawnFailure> },
    /// Answers `ReleaseBackend`.
    BackendReleased,
}

/// Whether `event` is the report that `action` asks for.
pub open spec fn answers(action: Action, event: Event) -> bool {
    match action {
        Action::CheckPort { .. } => event is PortChecked,
        Action::ListPortOwners { .. } => event is OwnersListed,
        Action::KillProcess { .. } => event is ProcessKilled,
        Action::Sleep { .. } => event is Slept,
        Action::ProbeExistingDatabase => event is ExistingProbed,
        Action::LocateResources => event is ResourcesLocated,
        Action::CheckDataDir => event is DataDirChecked,
        Action::CreateDataDir => event is DataDirCreated,
        Action::RunInitdb => event is InitdbFinished,
        Action::RunPgCtlStart => event is PgCtlStartFinished,
        Action::RunPgCtlStop => event is PgCtlStopFinished,
        Action::SpawnBackend => event is BackendSpawned,
        Action::ReleaseBackend => event is BackendReleased,
        Action::Finish => false,
    }
}

/// What a step of a sub-sequence comes to: the sequence goes on in a new state, or it is over.
#[derive(Debug, PartialEq, Eq)]
pub enum Progress<S, T> {
    /// The sequence goes on.
    Pending(S),
    /// The sequence is over with this result.
    Done(T),
}


impl CommandOutcome {
    /// The outcome of a command that ran to its end and wrote `stderr` to its error stream.
    pub fn exited(success: bool, stderr: &[u8]) -> (outcome: CommandOutcome)
        ensures
            outcome matches CommandOutcome::Exited { success: s, stderr: text } && s == success
                && text@ == lossy_text(stderr@),
    {
        CommandOutcome::Exited { success, stderr: decode_lossy(stderr) }
    }
}

impl Event {
    /// The report on a listing of a port's owners: `output` is what the
    /// listing printed, `None` where it could not be made. The owners are
    /// the process ids in the output.
    pub fn owners_listed(output: Option<&[u8]>) -> (event: Event)
        ensures
            event matches Event::OwnersListed { owners } && match output {
                Some(bytes) => owners matches Some(pids) && pids@ == owner_pids(
                    lossy_text(bytes@),
                ),
                None => owners is None,
            },
    {
        match output {
            Some(bytes) => Event::OwnersListed { owners: Some(port_owners_in_output(bytes)) },
            None => Event::OwnersListed { owners: None },
        }
    }
}

} // verus!
