//! The service orchestrator: the ordered start and stop sequences, and what
//! the status probes mean.

use vstd::prelude::*;
use vstd::string::*;
use crate::backend::{backend_run, lemma_backend_outcome, start_backend, BackendFacts, BackendStart};
use crate::database::{
    database_run,
    lemma_database_outcome,
    start_postgres,
    DatabaseFacts,
    DatabaseStart,
    DatabaseUp,
};
use crate::error::ServiceError;
use crate::port_guard::{seen_free, PortGuard};
use crate::protocol::{
    answers,
    Action,
    Event,
    Located,
    Progress,
    BACKEND_PORT,
    DATABASE_GRACE_MILLIS,
    DATABASE_PORT,
};

verus! {

/// Which of the local services are up, as far as the orchestrator has seen.
#[derive(Debug, Clone, Copy, PartialEq, Eq, Structural)]
pub struct ServerState {
    /// Whether the database's data directory is known to be initialised.
    pub postgres_initialized: bool,
    /// Whether the database is available.
    pub postgres_running: bool,
    /// Whether the backend process has been spawned.
    pub backend_running: bool,
}

impl ServerState {
    /// Nothing is up.
    pub open spec fn nothing() -> ServerState {
        ServerState { postgres_initialized: false, postgres_running: false, backend_running: false }
    }

    /// The services once the database has come up in the way `how` says. A
    /// database that was found running is used without looking at its data
    /// directory, so nothing is known of that.
    pub open spec fn with_database(how: DatabaseUp) -> ServerState {
        ServerState {
            postgres_initialized: how != DatabaseUp::ReusedExisting,
            postgres_running: true,
            backend_running: false,
        }
    }

    /// The same services with the backend up as well.
    pub open spec fn with_backend(self) -> ServerState {
        ServerState {
            postgres_initialized: self.postgres_initialized,
            postgres_running: self.postgres_running,
            backend_running: true,
        }
    }
}

impl Default for ServerState {
    fn default() -> (state: ServerState)
        ensures
            state == ServerState::nothing(),
    {
        ServerState { postgres_initialized: false, postgres_running: false, backend_running: false }
    }
}

/// Where an orchestrator stands in its life.
#[derive(Debug, Clone, Copy, PartialEq, Eq, Structural)]
pub enum Lifecycle {
    Stopped,
    Starting,
    Running,
    PartiallyStarted,
    Stopping,
}

/// The service orchestrator.
///
/// Starting runs the database start, then a grace period, then the backend
/// start; the first failure ends the sequence and is kept. Stopping lets go
/// of the backend, then shuts the database down; nothing that goes wrong
/// there is reported, so a stop always ends in `Stopped`.
#[derive(Debug, PartialEq, Eq)]
#[allow(inconsistent_fields)]
pub enum Orchestrator {
    /// Nothing runs and nothing is in progress.
    Stopped,
    /// The database is being started.
    StartingDatabase { start: DatabaseStart },
    /// The database is up and is given time to accept connections.
    AwaitingDatabase { services: ServerState },
    /// The backend is being started.
    StartingBackend { services: ServerState, start: BackendStart },
    /// Both services were started.
    Running { services: ServerState },
    /// A start was given up; `services` says what had come up by then.
    PartiallyStarted { services: ServerState, error: ServiceError },
    /// A stop is in progress: the backend is being let go of.
    StoppingBackend,
    /// A stop is in progress: the database's control binary is being located.
    LocatingDatabase,
    /// A stop is in progress: the database is being shut down.
    StoppingDatabase,
}

impl Orchestrator {
    /// Where the orchestrator stands in its life.
    pub open spec fn lifecycle_spec(self) -> Lifecycle {
        match self {
            Orchestrator::Stopped => Lifecycle::Stopped,
            Orchestrator::StartingDatabase { .. } => Lifecycle::Starting,
            Orchestrator::AwaitingDatabase { .. } => Lifecycle::Starting,
            Orchestrator::StartingBackend { .. } => Lifecycle::Starting,
            Orchestrator::Running { .. } => Lifecycle::Running,
            Orchestrator::PartiallyStarted { .. } => Lifecycle::PartiallyStarted,
            Orchestrator::StoppingBackend => Lifecycle::Stopping,
            Orchestrator::LocatingDatabase => Lifecycle::Stopping,
            Orchestrator::StoppingDatabase => Lifecycle::Stopping,
        }
    }

    /// Which services the orchestrator has brought up. While the database is
    /// still starting, and from the moment a stop begins, that is none.
    pub open spec fn services_spec(self) -> ServerState {
        match self {
            Orchestrator::AwaitingDatabase { services } => services,
            Orchestrator::StartingBackend { services, .. } => services,
            Orchestrator::Running { services } => services,
            Orchestrator::PartiallyStarted { services, .. } => services,
            _ => ServerState::nothing(),
        }
    }

    /// The action the orchestrator waits for; `Finish` when no sequence is in progress.
    pub open spec fn pending_spec(self) -> Action {
        match self {
            Orchestrator::Stopped => Action::Finish,
            Orchestrator::StartingDatabase { start } => start.pending_spec(),
            Orchestrator::AwaitingDatabase { .. } => Action::Sleep { millis: DATABASE_GRACE_MILLIS },
            Orchestrator::StartingBackend { start, .. } => start.pending_spec(),
            Orchestrator::Running { .. } => Action::Finish,
            Orchestrator::PartiallyStarted { .. } => Action::Finish,
            Orchestrator::StoppingBackend => Action::ReleaseBackend,
            Orchestrator::LocatingDatabase => Action::LocateResources,
            Orchestrator::StoppingDatabase => Action::RunPgCtlStop,
        }
    }

    /// Whether a search found what a database shutdown needs.
    pub open spec fn can_stop_database(located: Located) -> bool {
        located.data_location_error is None && located.pg_ctl
    }

    /// The state after `event`.
    pub open spec fn next(self, event: Event) -> Orchestrator {
        match self {
            Orchestrator::StartingDatabase { start } => match start.next(event) {
                Progress::Pending(start) => Orchestrator::StartingDatabase { start },
                Progress::Done(Ok(how)) => Orchestrator::AwaitingDatabase {
                    services: ServerState::with_database(how),
                },
                Progress::Done(Err(error)) => Orchestrator::PartiallyStarted {
                    services: ServerState::nothing(),
                    error,
                },
            },
            Orchestrator::AwaitingDatabase { services } => match event {
                Event::Slept => Orchestrator::StartingBackend {
                    services,
                    start: BackendStart::Guarding {
                        guard: PortGuard::Checking { port: BACKEND_PORT },
                    },
                },
                _ => self,
            },
            Orchestrator::StartingBackend { services, start } => match start.next(event) {
                Progress::Pending(start) => Orchestrator::StartingBackend { services, start },
                Progress::Done(Ok(())) => Orchestrator::Running {
                    services: services.with_backend(),
                },
                Progress::Done(Err(error)) => Orchestrator::PartiallyStarted { services, error },
            },
            Orchestrator::StoppingBackend => match event {
                Event::BackendReleased => Orchestrator::LocatingDatabase,
                _ => self,
            },
            Orchestrator::LocatingDatabase => match event {
                Event::ResourcesLocated { located } => if Self::can_stop_database(located) {
                    Orchestrator::StoppingDatabase
                } else {
                    Orchestrator::Stopped
                },
                _ => self,
            },
            Orchestrator::StoppingDatabase => match event {
                Event::PgCtlStopFinished => Orchestrator::Stopped,
                _ => self,
            },
            Orchestrator::Stopped => self,
            Orchestrator::Running { .. } => self,
            Orchestrator::PartiallyStarted { .. } => self,
        }
    }

    /// What the last sequence came to, once none is in progress: `Err` with
    /// the failure that ended a start, `Ok` otherwise.
    pub open spec fn result_spec(self) -> Option<Result<(), ServiceError>> {
        match self {
            Orchestrator::Stopped => Some(Ok(())),
            Orchestrator::Running { .. } => Some(Ok(())),
            Orchestrator::PartiallyStarted { error, .. } => Some(Err(error)),
            _ => None,
        }
    }

    /// An orchestrator with nothing running.
    pub fn new() -> (orchestrator: Orchestrator)
        ensures
            orchestrator == Orchestrator::Stopped,
    {
        Orchestrator::Stopped
    }

    /// Where the orchestrator stands in its life.
    pub fn lifecycle(&self) -> (lifecycle: Lifecycle)
        ensures
            lifecycle == self.lifecycle_spec(),
    {
        match self {
            Orchestrator::Stopped => Lifecycle::Stopped,
            Orchestrator::StartingDatabase { .. } => Lifecycle::Starting,
            Orchestrator::AwaitingDatabase { .. } => Lifecycle::Starting,
            Orchestrator::StartingBackend { .. } => Lifecycle::Starting,
            Orchestrator::Running { .. } => Lifecycle::Running,
            Orchestrator::PartiallyStarted { .. } => Lifecycle::PartiallyStarted,
            Orchestrator::StoppingBackend => Lifecycle::Stopping,
            Orchestrator::LocatingDatabase => Lifecycle::Stopping,
            Orchestrator::StoppingDatabase => Lifecycle::Stopping,
        }
    }

    /// Which services the orchestrator has brought up.
    pub fn services(&self) -> (services: ServerState)
        ensures
            services == self.services_spec(),
    {
        match self {
            Orchestrator::AwaitingDatabase { services } => *services,
            Orchestrator::StartingBackend { services, .. } => *services,
            Orchestrator::Running { services } => *services,
            Orchestrator::PartiallyStarted { services, .. } => *services,
            _ => ServerState::default(),
        }
    }

    /// The action to perform now; `Finish` when no sequence is in progress.
    pub fn pending(&self) -> (action: Action)
        ensures
            action == self.pending_spec(),
    {
        match self {
            Orchestrator::Stopped => Action::Finish,
            Orchestrator::StartingDatabase { start } => start.pending(),
            Orchestrator::AwaitingDatabase { .. } => Action::Sleep { millis: DATABASE_GRACE_MILLIS },
            Orchestrator::StartingBackend { start, .. } => start.pending(),
            Orchestrator::Running { .. } => Action::Finish,
            Orchestrator::PartiallyStarted { .. } => Action::Finish,
            Orchestrator::StoppingBackend => Action::ReleaseBackend,
            Orchestrator::LocatingDatabase => Action::LocateResources,
            Orchestrator::StoppingDatabase => Action::RunPgCtlStop,
        }
    }

    /// Takes in what happened and moves on.
    pub fn advance(self, event: Event) -> (after: Orchestrator)
        ensures
            after == self.next(event),
    {
        match self {
            Orchestrator::StartingDatabase { start } => match start.advance(event) {
                Progress::Pending(start) => Orchestrator::StartingDatabase { start },
                Progress::Done(Ok(how)) => Orchestrator::AwaitingDatabase {
                    services: ServerState {
                        postgres_initialized: how != DatabaseUp::ReusedExisting,
                        postgres_running: true,
                        backend_running: false,
                    },
                },
                Progress::Done(Err(error)) => Orchestrator::PartiallyStarted {
                    services: ServerState::default(),
                    error,
                },
            },
            Orchestrator::AwaitingDatabase { services } => match event {
                Event::Slept => Orchestrator::StartingBackend { services, start: start_backend() },
                _ => Orchestrator::AwaitingDatabase { services },
            },
            Orchestrator::StartingBackend { services, start } => match start.advance(event) {
                Progress::Pending(start) => Orchestrator::StartingBackend { services, start },
                Progress::Done(Ok(())) => Orchestrator::Running {
                    services: ServerState {
                        postgres_initialized: services.postgres_initialized,
                        postgres_running: services.postgres_running,
                        backend_running: true,
                    },
                },
                Progress::Done(Err(error)) => Orchestrator::PartiallyStarted { services, error },
            },
            Orchestrator::StoppingBackend => match event {
                Event::BackendReleased => Orchestrator::LocatingDatabase,
                _ => Orchestrator::StoppingBackend,
            },
            Orchestrator::LocatingDatabase => match event {
                Event::ResourcesLocated { located } => {
                    if located.data_location_error.is_none() && located.pg_ctl {
                        Orchestrator::StoppingDatabase
                    } else {
                        Orchestrator::Stopped
                    }
                },
                _ => Orchestrator::LocatingDatabase,
            },
            Orchestrator::StoppingDatabase => match event {
                Event::PgCtlStopFinished => Orchestrator::Stopped,
                _ => Orchestrator::StoppingDatabase,
            },
            Orchestrator::Stopped => Orchestrator::Stopped,
            Orchestrator::Running { services } => Orchestrator::Running { services },
            Orchestrator::PartiallyStarted { services, error } => Orchestrator::PartiallyStarted {
                services,
                error,
            },
        }
    }

    /// What the last sequence came to, if none is in progress.
    pub fn result(&self) -> (result: Option<Result<(), ServiceError>>)
        ensures
            result == self.result_spec(),
    {
        match self {
            Orchestrator::Stopped => Some(Ok(())),
            Orchestrator::Running { .. } => Some(Ok(())),
            Orchestrator::PartiallyStarted { error, .. } => Some(Err(error.clone())),
            _ => None,
        }
    }
}

/// The state in which every start sequence begins.
pub open spec fn start_begun() -> Orchestrator {
    Orchestrator::StartingDatabase {
        start: DatabaseStart::Guarding { guard: PortGuard::Checking { port: DATABASE_PORT } },
    }
}

/// Begins the start sequence, whatever the orchestrator was doing before:
/// the database comes first.
pub fn start_services(orchestrator: Orchestrator) -> (starting: Orchestrator)
    ensures
        starting == start_begun(),
{
    Orchestrator::StartingDatabase { start: start_postgres() }
}

/// Begins the stop sequence, whatever the orchestrator was doing before, so
/// that whatever did start is torn down: the backend goes first.
pub fn stop_services(orchestrator: Orchestrator) -> (stopping: Orchestrator)
    ensures
        stopping == Orchestrator::StoppingBackend,
{
    Orchestrator::StoppingBackend
}

/// Whether the engine's status routine can be run: the data directory's
/// place, the control binary and the resource directory are known.
pub open spec fn can_probe_postgres(located: Located) -> bool {
    located.data_location_error is None && located.pg_ctl && located.resource_dir
}

/// Whether the database counts as running: the status routine could be run,
/// was run and reported success (`status_succeeded` is `None` where it was
/// not run or could not be launched).
pub open spec fn postgres_status(located: Located, status_succeeded: Option<bool>) -> bool {
    can_probe_postgres(located) && status_succeeded == Some(true)
}

/// Says whether a search found what the engine's status routine needs.
pub fn can_check_postgres(located: &Located) -> (possible: bool)
    ensures
        possible == can_probe_postgres(*located),
{
    located.data_location_error.is_none() && located.pg_ctl && located.resource_dir
}

/// Turns what a status probe of the database found into "running" or "not running".
pub fn check_postgres_status(located: &Located, status_succeeded: Option<bool>) -> (running: bool)
    ensures
        running == postgres_status(*located, status_succeeded),
{
    let ran_well = match status_succeeded {
        Some(success) => success,
        None => false,
    };
    can_check_postgres(located) && ran_well
}

/// How long a health request may take before the backend counts as unhealthy.
pub const HEALTH_TIMEOUT_MILLIS: u64 = 2000;

/// Whether an answer to a health request means "healthy": there is one, and
/// its status is a 2xx. No answer (refused, timed out) is unhealthy.
pub open spec fn backend_status(response: Option<u16>) -> bool {
    response matches Some(code) && 200 <= code < 300
}

/// Turns the answer to a health request, if there was one, into "healthy" or "unhealthy".
pub fn check_backend_status(response: Option<u16>) -> (healthy: bool)
    ensures
        healthy == backend_status(response),
{
    match response {
        Some(code) => 200 <= code && code < 300,
        None => false,
    }
}

/// A probe that gets no answer, because nothing listens or because the
/// answer takes too long, reports "unhealthy"; so does every answer
/// outside the 2xx range.
pub proof fn lemma_no_answer_is_unhealthy(code: u16)
    ensures
        !backend_status(None),
        backend_status(Some(code)) <==> 200 <= code <= 299,
{
}

/// Where the backend's health is asked for, given the API's base address.
pub open spec fn health_url_spec(api_url: Seq<char>) -> Seq<char> {
    api_url + "/health"@
}

/// The address of the backend's health endpoint.
pub fn health_url(api_url: &str) -> (url: String)
    ensures
        url@ == health_url_spec(api_url@),
{
    crate::text::joined(api_url, "/health")
}

/// The orchestrator after a start was begun and `events` were reported, in order.
pub open spec fn started_then(events: Seq<Event>) -> Orchestrator
    decreases events.len(),
{
    if events.len() == 0 {
        start_begun()
    } else {
        started_then(events.drop_last()).next(events.last())
    }
}

/// The orchestrator after a stop was begun and `events` were reported, in order.
pub open spec fn stopped_then(events: Seq<Event>) -> Orchestrator
    decreases events.len(),
{
    if events.len() == 0 {
        Orchestrator::StoppingBackend
    } else {
        stopped_then(events.drop_last()).next(events.last())
    }
}

/// An event that does not answer the pending action changes nothing. In
/// particular nothing moves an orchestrator that has no sequence in progress.
pub proof fn lemma_unrelated_event_is_ignored(orchestrator: Orchestrator, event: Event)
    requires
        !answers(orchestrator.pending_spec(), event),
    ensures
        orchestrator.next(event) == orchestrator,
{
}

/// The lifecycle moves only along `Starting -> Running`, `Starting ->
/// PartiallyStarted` and `Stopping -> Stopped`; beginning a start leads to
/// `Starting` and beginning a stop to `Stopping`, from anywhere.
pub proof fn lemma_lifecycle_steps(orchestrator: Orchestrator, event: Event)
    ensures
        ({
            let before = orchestrator.lifecycle_spec();
            let after = orchestrator.next(event).lifecycle_spec();
            ||| after == before
            ||| before == Lifecycle::Starting && after == Lifecycle::Running
            ||| before == Lifecycle::Starting && after == Lifecycle::PartiallyStarted
            ||| before == Lifecycle::Stopping && after == Lifecycle::Stopped
        }),
        start_begun().lifecycle_spec() == Lifecycle::Starting,
        Orchestrator::StoppingBackend.lifecycle_spec() == Lifecycle::Stopping,
{
}

/// What holds at every point of a start sequence.
pub open spec fn start_order_kept(orchestrator: Orchestrator) -> bool {
    match orchestrator {
        Orchestrator::StartingDatabase { .. } => true,
        Orchestrator::AwaitingDatabase { services } => services.postgres_running
            && !services.backend_running,
        Orchestrator::StartingBackend { services, .. } => services.postgres_running
            && !services.backend_running,
        Orchestrator::Running { services } => services.postgres_running && services.backend_running,
        Orchestrator::PartiallyStarted { services, .. } => !services.backend_running,
        _ => false,
    }
}

/// The database start always precedes the backend start: whatever is
/// reported during a start sequence, the backend's port is touched and the
/// backend is spawned only while the database is up, `Running` means that
/// both are up, and a start that was given up has not brought the backend up.
pub proof fn lemma_database_before_backend(events: Seq<Event>)
    ensures
        start_order_kept(started_then(events)),
        started_then(events).pending_spec() == Action::SpawnBackend ==> started_then(
            events,
        ).services_spec().postgres_running,
    decreases events.len(),
{
    if events.len() > 0 {
        lemma_database_before_backend(events.drop_last());
    }
}

/// Port-freeing precedes every start attempt: a start sequence asks for the
/// database to be initialised or started, or for the backend to be spawned,
/// only after a port check has come back "free".
pub proof fn lemma_launch_needs_free_port(events: Seq<Event>)
    ensures
        ({
            let pending = started_then(events).pending_spec();
            pending == Action::RunInitdb || pending == Action::RunPgCtlStart || pending
                == Action::SpawnBackend
        }) ==> seen_free(events),
    decreases events.len(),
{
    lemma_free_port_seen(events);
}

/// Where a start sequence stands with respect to the ports it has to free.
pub open spec fn past_port_check(orchestrator: Orchestrator) -> bool {
    match orchestrator {
        Orchestrator::StartingDatabase { start } => !(start is Guarding || start
            is ProbingExisting),
        Orchestrator::StartingBackend { start, .. } => start is Spawning,
        Orchestrator::Running { .. } => true,
        _ => false,
    }
}

proof fn lemma_free_port_seen(events: Seq<Event>)
    ensures
        past_port_check(started_then(events)) ==> seen_free(events),
    decreases events.len(),
{
    if events.len() > 0 {
        let before = events.drop_last();
        lemma_free_port_seen(before);
        if seen_free(before) {
            let i = choose|i: int| 0 <= i < before.len() && #[trigger] before[i] == (
            Event::PortChecked { free: true });
            assert(events[i] == before[i]);
        } else if past_port_check(started_then(events)) {
            assert(events[events.len() - 1] == (Event::PortChecked { free: true }));
        }
    }
}

/// What a start sequence can find out about its surroundings.
pub struct StartFacts {
    /// What the database start finds.
    pub database: DatabaseFacts,
    /// What the backend start finds.
    pub backend: BackendFacts,
}

impl StartFacts {
    /// The report that the action pending in `orchestrator` gets.
    pub open spec fn answer(self, orchestrator: Orchestrator) -> Event {
        match orchestrator {
            Orchestrator::StartingDatabase { start } => self.database.answer(start),
            Orchestrator::StartingBackend { start, .. } => self.backend.answer(start),
            _ => Event::Slept,
        }
    }

    /// Where a start sequence ends.
    ///
    /// If the database start fails, the backend is not touched and nothing
    /// counts as up. If the database comes up and the backend start fails,
    /// the database stays up. Either way the failure is kept. If both come
    /// up, the orchestrator is running.
    pub open spec fn end(self) -> Orchestrator {
        match self.database.outcome() {
            Err(error) => Orchestrator::PartiallyStarted { services: ServerState::nothing(), error },
            Ok(how) => match self.backend.outcome() {
                Err(error) => Orchestrator::PartiallyStarted {
                    services: ServerState::with_database(how),
                    error,
                },
                Ok(()) => Orchestrator::Running {
                    services: ServerState::with_database(how).with_backend(),
                },
            },
        }
    }
}

/// Where the orchestrator is after `steps` of its actions were performed
/// and answered as `facts` says. An orchestrator with nothing in progress
/// stays as it is.
pub open spec fn start_run(facts: StartFacts, orchestrator: Orchestrator, steps: nat) -> Orchestrator
    decreases steps,
{
    if steps == 0 {
        orchestrator
    } else {
        start_run(facts, orchestrator.next(facts.answer(orchestrator)), (steps - 1) as nat)
    }
}

/// Whether the orchestrator has nothing in progress.
pub open spec fn at_rest(orchestrator: Orchestrator) -> bool {
    orchestrator.result_spec() is Some
}

/// An orchestrator at rest stays as it is.
proof fn lemma_rest_lasts(facts: StartFacts, orchestrator: Orchestrator, steps: nat)
    requires
        at_rest(orchestrator),
    ensures
        start_run(facts, orchestrator, steps) == orchestrator,
    decreases steps,
{
    if steps > 0 {
        lemma_rest_lasts(facts, orchestrator, (steps - 1) as nat);
    }
}

/// A run that has come to rest stays there, however many more steps it is given.
proof fn lemma_start_run_settles(
    facts: StartFacts,
    orchestrator: Orchestrator,
    steps: nat,
    more: nat,
)
    requires
        at_rest(start_run(facts, orchestrator, steps)),
    ensures
        start_run(facts, orchestrator, steps + more) == start_run(facts, orchestrator, steps),
    decreases steps,
{
    if steps == 0 {
        lemma_rest_lasts(facts, orchestrator, more);
    } else {
        lemma_start_run_settles(
            facts,
            orchestrator.next(facts.answer(orchestrator)),
            (steps - 1) as nat,
            more,
        );
    }
}

/// Where the sequence goes on once the database start has ended.
pub open spec fn after_database(result: Result<DatabaseUp, ServiceError>) -> Orchestrator {
    match result {
        Ok(how) => Orchestrator::AwaitingDatabase { services: ServerState::with_database(how) },
        Err(error) => Orchestrator::PartiallyStarted { services: ServerState::nothing(), error },
    }
}

/// Where the sequence ends once the backend start has ended.
pub open spec fn after_backend(
    services: ServerState,
    result: Result<(), ServiceError>,
) -> Orchestrator {
    match result {
        Ok(()) => Orchestrator::Running { services: services.with_backend() },
        Err(error) => Orchestrator::PartiallyStarted { services, error },
    }
}

/// While the backend starts the sequence does what the backend start does,
/// and ends where that ends.
proof fn lemma_sequence_follows_backend(
    facts: StartFacts,
    services: ServerState,
    start: BackendStart,
    result: Result<(), ServiceError>,
    steps: nat,
)
    requires
        backend_run(facts.backend, start, steps) == Progress::<
            BackendStart,
            Result<(), ServiceError>,
        >::Done(result),
    ensures
        start_run(facts, Orchestrator::StartingBackend { services, start }, steps) == after_backend(
            services,
            result,
        ),
    decreases steps,
{
    match start.next(facts.backend.answer(start)) {
        Progress::Pending(after) => {
            lemma_sequence_follows_backend(facts, services, after, result, (steps - 1) as nat);
        },
        Progress::Done(_) => {
            lemma_rest_lasts(facts, after_backend(services, result), (steps - 1) as nat);
        },
    }
}

/// While the database starts the sequence does what the database start
/// does, and goes on from where that ends.
proof fn lemma_sequence_follows_database(
    facts: StartFacts,
    start: DatabaseStart,
    result: Result<DatabaseUp, ServiceError>,
    database_steps: nat,
    steps: nat,
)
    requires
        database_run(facts.database, start, database_steps) == Progress::<
            DatabaseStart,
            Result<DatabaseUp, ServiceError>,
        >::Done(result),
        at_rest(start_run(facts, after_database(result), steps)),
    ensures
        start_run(facts, Orchestrator::StartingDatabase { start }, database_steps + steps)
            == start_run(facts, after_database(result), steps),
    decreases database_steps,
{
    match start.next(facts.database.answer(start)) {
        Progress::Pending(after) => {
            lemma_sequence_follows_database(
                facts,
                after,
                result,
                (database_steps - 1) as nat,
                steps,
            );
        },
        Progress::Done(_) => {
            lemma_start_run_settles(
                facts,
                after_database(result),
                steps,
                (database_steps - 1) as nat,
            );
        },
    }
}

/// What starting the services does, in one sentence: performed to its end,
/// whatever the surroundings are, the start sequence comes to rest where
/// `StartFacts::end` describes. It needs no more steps than the two starts
/// do and the grace period between them.
pub proof fn lemma_start_outcome(facts: StartFacts, steps: nat)
    requires
        steps >= facts.database.port.owner_count() + facts.backend.port.owner_count() + 15,
    ensures
        start_run(facts, start_begun(), steps) == facts.end(),
        at_rest(facts.end()),
{
    let database_steps = facts.database.port.owner_count() + 9;
    let backend_steps = facts.backend.port.owner_count() + 5;
    let database_result = facts.database.outcome();
    lemma_database_outcome(facts.database, database_steps);
    assert(start_run(facts, after_database(database_result), backend_steps + 1) == facts.end())
        by {
        match database_result {
            Ok(how) => {
                lemma_backend_outcome(facts.backend, backend_steps);
                lemma_sequence_follows_backend(
                    facts,
                    ServerState::with_database(how),
                    BackendStart::Guarding { guard: PortGuard::Checking { port: BACKEND_PORT } },
                    facts.backend.outcome(),
                    backend_steps,
                );
            },
            Err(_) => {
                lemma_rest_lasts(facts, after_database(database_result), backend_steps + 1);
            },
        }
    }
    lemma_sequence_follows_database(
        facts,
        DatabaseStart::Guarding { guard: PortGuard::Checking { port: DATABASE_PORT } },
        database_result,
        database_steps,
        backend_steps + 1,
    );
    lemma_start_run_settles(
        facts,
        start_begun(),
        database_steps + backend_steps + 1,
        (steps - database_steps - backend_steps - 1) as nat,
    );
}

/// The first failure ends a start: the sequence stops asking for actions,
/// reports that failure, and the backend is never brought up after it. Where
/// the database start is what failed, nothing counts as up.
pub proof fn lemma_failure_ends_start(orchestrator: Orchestrator, event: Event)
    requires
        orchestrator.lifecycle_spec() == Lifecycle::Starting,
        orchestrator.next(event) is PartiallyStarted,
    ensures
        ({
            let after = orchestrator.next(event);
            &&& after.pending_spec() == Action::Finish
            &&& after.result_spec() == Some(
                Err::<(), ServiceError>(after->PartiallyStarted_error),
            )
            &&& after.services_spec() == orchestrator.services_spec()
            &&& orchestrator is StartingDatabase ==> after.services_spec() == ServerState::nothing()
            &&& forall|later: Event| after.next(later) == after
        }),
{
}

/// A stop always completes: once begun, it takes the release of the backend,
/// the search for the database's control binary and, where that was found,
/// the shutdown command, whatever their outcome, and then nothing runs.
pub proof fn lemma_stop_completes(located: Located)
    ensures
        ({
            let released = Orchestrator::StoppingBackend.next(Event::BackendReleased);
            let searched = released.next(Event::ResourcesLocated { located });
            let stopped = if Orchestrator::can_stop_database(located) {
                searched.next(Event::PgCtlStopFinished)
            } else {
                searched
            };
            &&& released.pending_spec() == Action::LocateResources
            &&& Orchestrator::can_stop_database(located) ==> searched.pending_spec()
                == Action::RunPgCtlStop
            &&& stopped == Orchestrator::Stopped
            &&& stopped.services_spec() == ServerState::nothing()
            &&& stopped.result_spec() == Some(Ok::<(), ServiceError>(()))
        }),
{
}

/// The backend is let go of before the database is shut down: whatever is
/// reported during a stop sequence, the database's shutdown is asked for
/// only after the backend's release was reported, and nothing is started.
pub proof fn lemma_backend_before_database(events: Seq<Event>)
    ensures
        ({
            let pending = stopped_then(events).pending_spec();
            (pending == Action::LocateResources || pending == Action::RunPgCtlStop)
                ==> exists|i: int|
                0 <= i < events.len() && #[trigger] events[i] == Event::BackendReleased
        }),
        stopped_then(events).lifecycle_spec() == Lifecycle::Stopping || stopped_then(events)
            == Orchestrator::Stopped,
    decreases events.len(),
{
    if events.len() > 0 {
        let before = events.drop_last();
        lemma_backend_before_database(before);
        let pending = stopped_then(before).pending_spec();
        if pending == Action::LocateResources || pending == Action::RunPgCtlStop {
            let i = choose|i: int|
                0 <= i < before.len() && #[trigger] before[i] == Event::BackendReleased;
            assert(events[i] == before[i]);
        } else if stopped_then(events).pending_spec() != pending {
            assert(events[events.len() - 1] == Event::BackendReleased);
        }
    }
}

} // verus!
