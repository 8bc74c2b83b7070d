//! Starting the local database engine.

use vstd::prelude::*;
use vstd::string::*;
use crate::error::{InitStage, Process, Resource, ServiceError};
use crate::port_guard::{guard_run, lemma_guard_verdict, PortFacts, PortGuard};
use crate::protocol::{Action, CommandOutcome, Event, Located, Progress, DATABASE_PORT};
use crate::text::{decimal, format_decimal};

verus! {

/// How the database came to be available.
#[derive(Debug, Clone, Copy, PartialEq, Eq, Structural)]
pub enum DatabaseUp {
    /// The port could not be freed, but a compatible database already answers on it.
    ReusedExisting,
    /// The engine reported a clean start.
    Started,
    /// The engine's start command exited with an error. Most often that means
    /// that a server is running on the data directory already, so it does not
    /// count as a failure.
    StartUnconfirmed,
}

/// A database start in progress.
///
/// The database port is made free first. If it cannot be, the occupant is
/// probed: a compatible database is used as it is, anything else is a port
/// conflict. Otherwise the engine's files are located, the data directory is
/// initialised if it does not exist yet, and the engine is started.
#[derive(Debug, PartialEq, Eq)]
pub enum DatabaseStart {
    /// The port guard is at work on the database port.
    Guarding { guard: PortGuard },
    /// The port stays occupied; its occupant is being probed.
    ProbingExisting,
    /// The data directory and the binaries are being located.
    LocatingResources,
    /// The data directory is being looked for.
    CheckingDataDir,
    /// The data directory is being created.
    CreatingDataDir,
    /// The engine's initialisation routine is running.
    Initializing,
    /// The engine is being started.
    Launching,
}

/// The error for the first thing that `located` lacks, if it lacks any: the
/// data directory's place, the initialisation binary, the control binary,
/// the resource directory, in this order.
pub open spec fn missing_resource(located: Located) -> Option<ServiceError> {
    match located.data_location_error {
        Some(reason) => Some(ServiceError::DataLocationUnavailable { reason }),
        None => if !located.initdb {
            Some(ServiceError::ResourceNotFound { resource: Resource::Initdb })
        } else if !located.pg_ctl {
            Some(ServiceError::ResourceNotFound { resource: Resource::PgCtl })
        } else if !located.resource_dir {
            Some(ServiceError::ResourceNotFound { resource: Resource::ResourceDir })
        } else {
            None
        },
    }
}

/// Checks that everything the database start needs was found; names the first thing missing.
pub fn require_resources(located: Located) -> (missing: Option<ServiceError>)
    ensures
        missing == missing_resource(located),
{
    match located.data_location_error {
        Some(reason) => Some(ServiceError::DataLocationUnavailable { reason }),
        None => if !located.initdb {
            Some(ServiceError::ResourceNotFound { resource: Resource::Initdb })
        } else if !located.pg_ctl {
            Some(ServiceError::ResourceNotFound { resource: Resource::PgCtl })
        } else if !located.resource_dir {
            Some(ServiceError::ResourceNotFound { resource: Resource::ResourceDir })
        } else {
            None
        },
    }
}

impl DatabaseStart {
    /// The action the start waits for.
    pub open spec fn pending_spec(self) -> Action {
        match self {
            DatabaseStart::Guarding { guard } => guard.pending_spec(),
            DatabaseStart::ProbingExisting => Action::ProbeExistingDatabase,
            DatabaseStart::LocatingResources => Action::LocateResources,
            DatabaseStart::CheckingDataDir => Action::CheckDataDir,
            DatabaseStart::CreatingDataDir => Action::CreateDataDir,
            DatabaseStart::Initializing => Action::RunInitdb,
            DatabaseStart::Launching => Action::RunPgCtlStart,
        }
    }

    /// What `event` leads to: the next state, or the end of the start.
    pub open spec fn next(self, event: Event) -> Progress<
        DatabaseStart,
        Result<DatabaseUp, ServiceError>,
    > {
        match self {
            DatabaseStart::Guarding { guard } => match guard.next(event) {
                Progress::Pending(guard) => Progress::Pending(DatabaseStart::Guarding { guard }),
                Progress::Done(free) => if free {
                    Progress::Pending(DatabaseStart::LocatingResources)
                } else {
                    Progress::Pending(DatabaseStart::ProbingExisting)
                },
            },
            DatabaseStart::ProbingExisting => match event {
                Event::ExistingProbed { compatible } => if compatible {
                    Progress::Done(Ok(DatabaseUp::ReusedExisting))
                } else {
                    Progress::Done(Err(ServiceError::PortConflict { port: DATABASE_PORT }))
                },
                _ => Progress::Pending(self),
            },
            DatabaseStart::LocatingResources => match event {
                Event::ResourcesLocated { located } => match missing_resource(located) {
                    Some(error) => Progress::Done(Err(error)),
                    None => Progress::Pending(DatabaseStart::CheckingDataDir),
                },
                _ => Progress::Pending(self),
            },
            DatabaseStart::CheckingDataDir => match event {
                Event::DataDirChecked { exists } => if exists {
                    Progress::Pending(DatabaseStart::Launching)
                } else {
                    Progress::Pending(DatabaseStart::CreatingDataDir)
                },
                _ => Progress::Pending(self),
            },
            DatabaseStart::CreatingDataDir => match event {
                Event::DataDirCreated { error: Some(reason) } => Progress::Done(
                    Err(
                        ServiceError::InitFailed {
                            stage: InitStage::CreateDataDir,
                            diagnostic: reason,
                        },
                    ),
                ),
                Event::DataDirCreated { error: None } => Progress::Pending(
                    DatabaseStart::Initializing,
                ),
                _ => Progress::Pending(self),
            },
            DatabaseStart::Initializing => match event {
                Event::InitdbFinished { outcome: CommandOutcome::NotRun { reason } } => {
                    Progress::Done(
                        Err(ServiceError::ProcessSpawnError { process: Process::Initdb, reason }),
                    )
                },
                Event::InitdbFinished { outcome: CommandOutcome::Exited { success, stderr } } => {
                    if success {
                        Progress::Pending(DatabaseStart::Launching)
                    } else {
                        Progress::Done(
                            Err(
                                ServiceError::InitFailed {
                                    stage: InitStage::Initdb,
                                    diagnostic: stderr,
                                },
                            ),
                        )
                    }
                },
                _ => Progress::Pending(self),
            },
            DatabaseStart::Launching => match event {
                Event::PgCtlStartFinished { outcome: CommandOutcome::NotRun { reason } } => {
                    Progress::Done(
                        Err(ServiceError::ProcessSpawnError { process: Process::PgCtl, reason }),
                    )
                },
                Event::PgCtlStartFinished { outcome: CommandOutcome::Exited { success, .. } } => {
                    if success {
                        Progress::Done(Ok(DatabaseUp::Started))
                    } else {
                        Progress::Done(Ok(DatabaseUp::StartUnconfirmed))
                    }
                },
                _ => Progress::Pending(self),
            },
        }
    }

    /// The action to perform now.
    pub fn pending(&self) -> (action: Action)
        ensures
            action == self.pending_spec(),
    {
        match self {
            DatabaseStart::Guarding { guard } => guard.pending(),
            DatabaseStart::ProbingExisting => Action::ProbeExistingDatabase,
            DatabaseStart::LocatingResources => Action::LocateResources,
            DatabaseStart::CheckingDataDir => Action::CheckDataDir,
            DatabaseStart::CreatingDataDir => Action::CreateDataDir,
            DatabaseStart::Initializing => Action::RunInitdb,
            DatabaseStart::Launching => Action::RunPgCtlStart,
        }
    }

    /// Takes in what happened and moves on.
    pub fn advance(self, event: Event) -> (after: Progress<
        DatabaseStart,
        Result<DatabaseUp, ServiceError>,
    >)
        ensures
            after == self.next(event),
    {
        match self {
            DatabaseStart::Guarding { guard } => match guard.advance(event) {
                Progress::Pending(guard) => Progress::Pending(DatabaseStart::Guarding { guard }),
                Progress::Done(free) => if free {
                    Progress::Pending(DatabaseStart::LocatingResources)
                } else {
                    Progress::Pending(DatabaseStart::ProbingExisting)
                },
            },
            DatabaseStart::ProbingExisting => match event {
                Event::ExistingProbed { compatible } => if compatible {
                    Progress::Done(Ok(DatabaseUp::ReusedExisting))
                } else {
                    Progress::Done(Err(ServiceError::PortConflict { port: DATABASE_PORT }))
                },
                _ => Progress::Pending(DatabaseStart::ProbingExisting),
            },
            DatabaseStart::LocatingResources => match event {
                Event::ResourcesLocated { located } => match require_resources(located) {
                    Some(error) => Progress::Done(Err(error)),
                    None => Progress::Pending(DatabaseStart::CheckingDataDir),
                },
                _ => Progress::Pending(DatabaseStart::LocatingResources),
            },
            DatabaseStart::CheckingDataDir => match event {
                Event::DataDirChecked { exists } => if exists {
                    Progress::Pending(DatabaseStart::Launching)
                } else {
                    Progress::Pending(DatabaseStart::CreatingDataDir)
                },
                _ => Progress::Pending(DatabaseStart::CheckingDataDir),
            },
            DatabaseStart::CreatingDataDir => match event {
                Event::DataDirCreated { error: Some(reason) } => Progress::Done(
                    Err(
                        ServiceError::InitFailed {
                            stage: InitStage::CreateDataDir,
                            diagnostic: reason,
                        },
                    ),
                ),
                Event::DataDirCreated { error: None } => Progress::Pending(
                    DatabaseStart::Initializing,
                ),
                _ => Progress::Pending(DatabaseStart::CreatingDataDir),
            },
            DatabaseStart::Initializing => match event {
                Event::InitdbFinished { outcome: CommandOutcome::NotRun { reason } } => {
                    Progress::Done(
                        Err(ServiceError::ProcessSpawnError { process: Process::Initdb, reason }),
                    )
                },
                Event::InitdbFinished { outcome: CommandOutcome::Exited { success, stderr } } => {
                    if success {
                        Progress::Pending(DatabaseStart::Launching)
                    } else {
                        Progress::Done(
                            Err(
                                ServiceError::InitFailed {
                                    stage: InitStage::Initdb,
                                    diagnostic: stderr,
                                },
                            ),
                        )
                    }
                },
                _ => Progress::Pending(DatabaseStart::Initializing),
            },
            DatabaseStart::Launching => match event {
                Event::PgCtlStartFinished { outcome: CommandOutcome::NotRun { reason } } => {
                    Progress::Done(
                        Err(ServiceError::ProcessSpawnError { process: Process::PgCtl, reason }),
                    )
                },
                Event::PgCtlStartFinished { outcome: CommandOutcome::Exited { success, .. } } => {
                    if success {
                        Progress::Done(Ok(DatabaseUp::Started))
                    } else {
                        Progress::Done(Ok(DatabaseUp::StartUnconfirmed))
                    }
                },
                _ => Progress::Pending(DatabaseStart::Launching),
            },
        }
    }
}

/// Begins starting the database: nothing has been done yet, the port guard comes first.
pub fn start_postgres() -> (start: DatabaseStart)
    ensures
        start == (DatabaseStart::Guarding { guard: PortGuard::Checking { port: DATABASE_PORT } }),
{
    DatabaseStart::Guarding { guard: PortGuard::free_port(DATABASE_PORT) }
}

/// An event that does not answer the start's pending action changes nothing.
pub proof fn lemma_database_start_ignores_unrelated(start: DatabaseStart, event: Event)
    requires
        !crate::protocol::answers(start.pending_spec(), event),
    ensures
        start.next(event) == Progress::<DatabaseStart, Result<DatabaseUp, ServiceError>>::Pending(
            start,
        ),
{
}

/// A database start never touches a port other than the database's.
pub open spec fn on_database_port(start: DatabaseStart) -> bool {
    start matches DatabaseStart::Guarding { guard } ==> guard.port_spec() == DATABASE_PORT
}

/// Every step keeps the start on the database port.
pub proof fn lemma_database_start_keeps_port(start: DatabaseStart, event: Event)
    requires
        on_database_port(start),
    ensures
        start.next(event) matches Progress::Pending(after) ==> on_database_port(after),
{
}

/// A start ends in a port conflict only when the port could not be freed and
/// the occupant then failed the compatibility probe, and it reuses an
/// existing database only when that probe succeeded.
pub proof fn lemma_port_conflict_needs_failed_probe(start: DatabaseStart, event: Event)
    ensures
        start.next(event) == Progress::<DatabaseStart, Result<DatabaseUp, ServiceError>>::Done(
            Err(ServiceError::PortConflict { port: DATABASE_PORT }),
        ) <==> start is ProbingExisting && event == (Event::ExistingProbed { compatible: false }),
        start.next(event) == Progress::<DatabaseStart, Result<DatabaseUp, ServiceError>>::Done(
            Ok(DatabaseUp::ReusedExisting),
        ) <==> start is ProbingExisting && event == (Event::ExistingProbed { compatible: true }),
{
}


/// What a database start can find out about its surroundings: what each of
/// its questions is answered.
pub struct DatabaseFacts {
    /// What the port guard finds on the database port.
    pub port: PortFacts,
    /// Whether the port's occupant answers as a compatible database.
    pub compatible: bool,
    /// What the search for the engine's files finds.
    pub located: Located,
    /// Whether the data directory exists.
    pub data_dir_exists: bool,
    /// Why the data directory cannot be created, if it cannot.
    pub create_error: Option<String>,
    /// How the initialisation routine ends.
    pub initdb: CommandOutcome,
    /// How the engine's start command ends.
    pub launch: CommandOutcome,
}

impl DatabaseFacts {
    /// The report that the action pending in `start` gets.
    pub open spec fn answer(self, start: DatabaseStart) -> Event {
        match start {
            DatabaseStart::Guarding { guard } => self.port.answer(guard),
            DatabaseStart::ProbingExisting => Event::ExistingProbed { compatible: self.compatible },
            DatabaseStart::LocatingResources => Event::ResourcesLocated { located: self.located },
            DatabaseStart::CheckingDataDir => Event::DataDirChecked {
                exists: self.data_dir_exists,
            },
            DatabaseStart::CreatingDataDir => Event::DataDirCreated { error: self.create_error },
            DatabaseStart::Initializing => Event::InitdbFinished { outcome: self.initdb },
            DatabaseStart::Launching => Event::PgCtlStartFinished { outcome: self.launch },
        }
    }

    /// Why the data directory cannot be initialised, if it cannot: it cannot
    /// be created, or the initialisation routine cannot be run or fails.
    pub open spec fn init_failure(self) -> Option<ServiceError> {
        match self.create_error {
            Some(reason) => Some(
                ServiceError::InitFailed { stage: InitStage::CreateDataDir, diagnostic: reason },
            ),
            None => match self.initdb {
                CommandOutcome::NotRun { reason } => Some(
                    ServiceError::ProcessSpawnError { process: Process::Initdb, reason },
                ),
                CommandOutcome::Exited { success, stderr } => if success {
                    None
                } else {
                    Some(ServiceError::InitFailed { stage: InitStage::Initdb, diagnostic: stderr })
                },
            },
        }
    }

    /// What starting the engine comes to: only a start command that cannot
    /// be run is a failure.
    pub open spec fn launch_outcome(self) -> Result<DatabaseUp, ServiceError> {
        match self.launch {
            CommandOutcome::NotRun { reason } => Err(
                ServiceError::ProcessSpawnError { process: Process::PgCtl, reason },
            ),
            CommandOutcome::Exited { success, .. } => if success {
                Ok(DatabaseUp::Started)
            } else {
                Ok(DatabaseUp::StartUnconfirmed)
            },
        }
    }

    /// What a database start comes to.
    ///
    /// If the port is not and cannot be made free: a compatible occupant is
    /// used as it is, any other is a port conflict. Otherwise the first thing
    /// missing among the engine's files is an error; a data directory that
    /// does not exist is initialised, and a failure there is an error; then
    /// the engine is started.
    pub open spec fn outcome(self) -> Result<DatabaseUp, ServiceError> {
        if !self.port.freed() {
            if self.compatible {
                Ok(DatabaseUp::ReusedExisting)
            } else {
                Err(ServiceError::PortConflict { port: DATABASE_PORT })
            }
        } else {
            match missing_resource(self.located) {
                Some(error) => Err(error),
                None => if self.data_dir_exists {
                    self.launch_outcome()
                } else {
                    match self.init_failure() {
                        Some(error) => Err(error),
                        None => self.launch_outcome(),
                    }
                },
            }
        }
    }
}

/// Where a database start is after at most `steps` of its actions were
/// performed and answered as `facts` says.
pub open spec fn database_run(facts: DatabaseFacts, start: DatabaseStart, steps: nat) -> Progress<
    DatabaseStart,
    Result<DatabaseUp, ServiceError>,
>
    decreases steps,
{
    if steps == 0 {
        Progress::Pending(start)
    } else {
        match start.next(facts.answer(start)) {
            Progress::Pending(after) => database_run(facts, after, (steps - 1) as nat),
            Progress::Done(result) => Progress::Done(result),
        }
    }
}

/// A start that has come to its end stays there, however many more steps it is given.
pub proof fn lemma_database_run_settles(
    facts: DatabaseFacts,
    start: DatabaseStart,
    steps: nat,
    more: nat,
)
    requires
        database_run(facts, start, steps) is Done,
    ensures
        database_run(facts, start, steps + more) == database_run(facts, start, steps),
    decreases steps,
{
    if let Progress::Pending(after) = start.next(facts.answer(start)) {
        lemma_database_run_settles(facts, after, (steps - 1) as nat, more);
    }
}

/// Where the start goes on once the guard has said whether the port is free.
pub open spec fn after_guard(free: bool) -> DatabaseStart {
    if free {
        DatabaseStart::LocatingResources
    } else {
        DatabaseStart::ProbingExisting
    }
}

/// While the guard is at work the start does what the guard does, and then
/// goes on from the guard's verdict.
proof fn lemma_database_follows_guard(
    facts: DatabaseFacts,
    guard: PortGuard,
    free: bool,
    guard_steps: nat,
    steps: nat,
)
    requires
        guard_run(facts.port, guard, guard_steps) == Progress::<PortGuard, bool>::Done(free),
        database_run(facts, after_guard(free), steps) is Done,
    ensures
        database_run(facts, DatabaseStart::Guarding { guard }, guard_steps + steps) == database_run(
            facts,
            after_guard(free),
            steps,
        ),
    decreases guard_steps,
{
    match guard.next(facts.port.answer(guard)) {
        Progress::Pending(after) => {
            lemma_database_follows_guard(facts, after, free, (guard_steps - 1) as nat, steps);
        },
        Progress::Done(_) => {
            lemma_database_run_settles(
                facts,
                after_guard(free),
                steps,
                (guard_steps - 1) as nat,
            );
        },
    }
}

/// What a database start does, in one sentence: performed to its end,
/// whatever its surroundings are, it comes to what `DatabaseFacts::outcome`
/// describes. It needs no more steps than the guard does and five more.
pub proof fn lemma_database_outcome(facts: DatabaseFacts, steps: nat)
    requires
        steps >= facts.port.owner_count() + 9,
    ensures
        database_run(
            facts,
            DatabaseStart::Guarding { guard: PortGuard::Checking { port: DATABASE_PORT } },
            steps,
        ) == Progress::<DatabaseStart, Result<DatabaseUp, ServiceError>>::Done(facts.outcome()),
{
    let begin = DatabaseStart::Guarding { guard: PortGuard::Checking { port: DATABASE_PORT } };
    let guard_steps = facts.port.owner_count() + 4;
    lemma_guard_verdict(DATABASE_PORT, facts.port, guard_steps);
    assert(database_run(facts, after_guard(facts.port.freed()), 5) == Progress::<
        DatabaseStart,
        Result<DatabaseUp, ServiceError>,
    >::Done(facts.outcome())) by {
        reveal_with_fuel(database_run, 6);
    }
    lemma_database_follows_guard(
        facts,
        PortGuard::Checking { port: DATABASE_PORT },
        facts.port.freed(),
        guard_steps,
        5,
    );
    lemma_database_run_settles(facts, begin, guard_steps + 5, (steps - guard_steps - 5) as nat);
}

/// The name of the database's data directory, below the application's data directory.
pub const DATA_DIR_NAME: &'static str = "pgdata";

/// The name of the engine's log file, below the application's data directory.
pub const LOG_FILE_NAME: &'static str = "postgresql.log";

/// The name of the superuser that the data directory is initialised with.
pub const SUPERUSER: &'static str = "postgres";

/// Where a database binary lies below the resource directory, one path component each.
pub open spec fn pg_bin_path_spec(binary: Seq<char>) -> Seq<Seq<char>> {
    seq!["sidecars"@, "postgresql"@, "bin"@, binary]
}

/// Where the engine's libraries lie below the resource directory.
pub open spec fn pg_lib_path_spec() -> Seq<Seq<char>> {
    seq!["sidecars"@, "postgresql"@, "lib"@]
}

/// The environment for the engine's binaries: both library search paths point at `lib_dir`.
pub open spec fn pg_env_spec(lib_dir: Seq<char>) -> Seq<(Seq<char>, Seq<char>)> {
    seq![("DYLD_LIBRARY_PATH"@, lib_dir), ("LD_LIBRARY_PATH"@, lib_dir)]
}

/// The arguments of the compatibility probe: a trivial query, as the
/// superuser, against whatever listens on the database port of this machine.
pub open spec fn psql_probe_args_spec() -> Seq<Seq<char>> {
    seq![
        "-h"@,
        "localhost"@,
        "-p"@,
        decimal(DATABASE_PORT as nat),
        "-U"@,
        SUPERUSER@,
        "-c"@,
        "SELECT 1"@,
    ]
}

/// The arguments of the initialisation routine: the data directory, the
/// superuser's name and UTF-8 as the encoding.
pub open spec fn initdb_args_spec(data_dir: Seq<char>) -> Seq<Seq<char>> {
    seq!["-D"@, data_dir, "-U"@, SUPERUSER@, "-E"@, "UTF8"@]
}

/// The arguments of the start routine: wait until the engine is ready, for at most 10 seconds.
pub open spec fn pg_ctl_start_args_spec(data_dir: Seq<char>, log_file: Seq<char>) -> Seq<
    Seq<char>,
> {
    seq!["start"@, "-D"@, data_dir, "-l"@, log_file, "-w"@, "-t"@, "10"@]
}

/// The arguments of the stop routine: a fast shutdown.
pub open spec fn pg_ctl_stop_args_spec(data_dir: Seq<char>) -> Seq<Seq<char>> {
    seq!["stop"@, "-D"@, data_dir, "-m"@, "fast"@]
}

/// The arguments of the status routine.
pub open spec fn pg_ctl_status_args_spec(data_dir: Seq<char>) -> Seq<Seq<char>> {
    seq!["status"@, "-D"@, data_dir]
}

/// The path components that lead from the resource directory to the database binary `binary`.
pub fn pg_bin_path(binary: &str) -> (parts: Vec<String>)
    ensures
        parts.deep_view() == pg_bin_path_spec(binary@),
{
    let mut parts: Vec<String> = Vec::new();
    parts.push(String::from_str("sidecars"));
    parts.push(String::from_str("postgresql"));
    parts.push(String::from_str("bin"));
    parts.push(String::from_str(binary));
    parts
}

/// The path components that lead from the resource directory to the engine's libraries.
pub fn pg_lib_path() -> (parts: Vec<String>)
    ensures
        parts.deep_view() == pg_lib_path_spec(),
{
    let mut parts: Vec<String> = Vec::new();
    parts.push(String::from_str("sidecars"));
    parts.push(String::from_str("postgresql"));
    parts.push(String::from_str("lib"));
    parts
}

/// The environment variables to run a database binary with.
pub fn pg_env(lib_dir: &str) -> (env: Vec<(String, String)>)
    ensures
        env.deep_view() == pg_env_spec(lib_dir@),
{
    let mut env: Vec<(String, String)> = Vec::new();
    env.push((String::from_str("DYLD_LIBRARY_PATH"), String::from_str(lib_dir)));
    env.push((String::from_str("LD_LIBRARY_PATH"), String::from_str(lib_dir)));
    env
}

/// The arguments for `psql` to probe an existing database.
pub fn psql_probe_args() -> (args: Vec<String>)
    ensures
        args.deep_view() == psql_probe_args_spec(),
{
    let mut args: Vec<String> = Vec::new();
    args.push(String::from_str("-h"));
    args.push(String::from_str("localhost"));
    args.push(String::from_str("-p"));
    args.push(format_decimal(DATABASE_PORT as u64));
    args.push(String::from_str("-U"));
    args.push(String::from_str(SUPERUSER));
    args.push(String::from_str("-c"));
    args.push(String::from_str("SELECT 1"));
    args
}

/// The arguments for `initdb` to initialise `data_dir`.
pub fn initdb_args(data_dir: &str) -> (args: Vec<String>)
    ensures
        args.deep_view() == initdb_args_spec(data_dir@),
{
    let mut args: Vec<String> = Vec::new();
    args.push(String::from_str("-D"));
    args.push(String::from_str(data_dir));
    args.push(String::from_str("-U"));
    args.push(String::from_str(SUPERUSER));
    args.push(String::from_str("-E"));
    args.push(String::from_str("UTF8"));
    args
}

/// The arguments for `pg_ctl` to start the engine on `data_dir`, logging to `log_file`.
pub fn pg_ctl_start_args(data_dir: &str, log_file: &str) -> (args: Vec<String>)
    ensures
        args.deep_view() == pg_ctl_start_args_spec(data_dir@, log_file@),
{
    let mut args: Vec<String> = Vec::new();
    args.push(String::from_str("start"));
    args.push(String::from_str("-D"));
    args.push(String::from_str(data_dir));
    args.push(String::from_str("-l"));
    args.push(String::from_str(log_file));
    args.push(String::from_str("-w"));
    args.push(String::from_str("-t"));
    args.push(String::from_str("10"));
    args
}

/// The arguments for `pg_ctl` to shut the engine on `data_dir` down.
pub fn pg_ctl_stop_args(data_dir: &str) -> (args: Vec<String>)
    ensures
        args.deep_view() == pg_ctl_stop_args_spec(data_dir@),
{
    let mut args: Vec<String> = Vec::new();
    args.push(String::from_str("stop"));
    args.push(String::from_str("-D"));
    args.push(String::from_str(data_dir));
    args.push(String::from_str("-m"));
    args.push(String::from_str("fast"));
    args
}

/// The arguments for `pg_ctl` to report whether the engine runs on `data_dir`.
pub fn pg_ctl_status_args(data_dir: &str) -> (args: Vec<String>)
    ensures
        args.deep_view() == pg_ctl_status_args_spec(data_dir@),
{
    let mut args: Vec<String> = Vec::new();
    args.push(String::from_str("status"));
    args.push(String::from_str("-D"));
    args.push(String::from_str(data_dir));
    args
}

} // verus!
