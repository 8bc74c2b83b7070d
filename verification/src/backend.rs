//! Starting the backend service.

use vstd::prelude::*;
use vstd::string::*;
use crate::error::{Process, ServiceError};
use crate::port_guard::{guard_run, lemma_guard_verdict, PortFacts, PortGuard};
use crate::protocol::{Action, Event, Progress, SpawnFailure, BACKEND_PORT, DATABASE_PORT};
use crate::text::{decimal, format_decimal};

verus! {

/// A backend start in progress.
///
/// The backend port is made free first; a port that cannot be freed is a
/// conflict. Then the backend is spawned as a child process. The start is
/// over once the process exists, not once it answers.
#[derive(Debug, PartialEq, Eq)]
pub enum BackendStart {
    /// The port guard is at work on the backend port.
    Guarding { guard: PortGuard },
    /// The backend process is being spawned.
    Spawning,
}

impl BackendStart {
    /// The action the start waits for.
    pub open spec fn pending_spec(self) -> Action {
        match self {
            BackendStart::Guarding { guard } => guard.pending_spec(),
            BackendStart::Spawning => Action::SpawnBackend,
        }
    }

    /// What `event` leads to: the next state, or the end of the start.
    pub open spec fn next(self, event: Event) -> Progress<BackendStart, Result<(), ServiceError>> {
        match self {
            BackendStart::Guarding { guard } => match guard.next(event) {
                Progress::Pending(guard) => Progress::Pending(BackendStart::Guarding { guard }),
                Progress::Done(free) => if free {
                    Progress::Pending(BackendStart::Spawning)
                } else {
                    Progress::Done(Err(ServiceError::PortConflict { port: BACKEND_PORT }))
                },
            },
            BackendStart::Spawning => match event {
                Event::BackendSpawned { failure: None } => Progress::Done(Ok(())),
                Event::BackendSpawned { failure: Some(SpawnFailure::Command { reason }) } => {
                    Progress::Done(
                        Err(
                            ServiceError::ProcessSpawnError {
                                process: Process::BackendSidecar,
                                reason,
                            },
                        ),
                    )
                },
                Event::BackendSpawned { failure: Some(SpawnFailure::Spawn { reason }) } => {
                    Progress::Done(
                        Err(ServiceError::ProcessSpawnError { process: Process::Backend, reason }),
                    )
                },
                _ => Progress::Pending(self),
            },
        }
    }

    /// The action to perform now.
    pub fn pending(&self) -> (action: Action)
        ensures
            action == self.pending_spec(),
    {
        match self {
            BackendStart::Guarding { guard } => guard.pending(),
            BackendStart::Spawning => Action::SpawnBackend,
        }
    }

    /// Takes in what happened and moves on.
    pub fn advance(self, event: Event) -> (after: Progress<
        BackendStart,
        Result<(), ServiceError>,
    >)
        ensures
            after == self.next(event),
    {
        match self {
            BackendStart::Guarding { guard } => match guard.advance(event) {
                Progress::Pending(guard) => Progress::Pending(BackendStart::Guarding { guard }),
                Progress::Done(free) => if free {
                    Progress::Pending(BackendStart::Spawning)
                } else {
                    Progress::Done(Err(ServiceError::PortConflict { port: BACKEND_PORT }))
                },
            },
            BackendStart::Spawning => match event {
                Event::BackendSpawned { failure: None } => Progress::Done(Ok(())),
                Event::BackendSpawned { failure: Some(SpawnFailure::Command { reason }) } => {
                    Progress::Done(
                        Err(
                            ServiceError::ProcessSpawnError {
                                process: Process::BackendSidecar,
                                reason,
                            },
                        ),
                    )
                },
                Event::BackendSpawned { failure: Some(SpawnFailure::Spawn { reason }) } => {
                    Progress::Done(
                        Err(ServiceError::ProcessSpawnError { process: Process::Backend, reason }),
                    )
                },
                _ => Progress::Pending(BackendStart::Spawning),
            },
        }
    }
}

/// Begins starting the backend: nothing has been done yet, the port guard comes first.
pub fn start_backend() -> (start: BackendStart)
    ensures
        start == (BackendStart::Guarding { guard: PortGuard::Checking { port: BACKEND_PORT } }),
{
    BackendStart::Guarding { guard: PortGuard::free_port(BACKEND_PORT) }
}

/// An event that does not answer the start's pending action changes nothing.
pub proof fn lemma_backend_start_ignores_unrelated(start: BackendStart, event: Event)
    requires
        !crate::protocol::answers(start.pending_spec(), event),
    ensures
        start.next(event) == Progress::<BackendStart, Result<(), ServiceError>>::Pending(start),
{
}

/// The backend is spawned only right after its port was found free, and a
/// port that the guard gives up on ends the start with a port conflict.
pub proof fn lemma_backend_spawns_on_free_port(guard: PortGuard, event: Event)
    ensures
        (BackendStart::Guarding { guard }).next(event) == Progress::<
            BackendStart,
            Result<(), ServiceError>,
        >::Pending(BackendStart::Spawning) <==> guard.next(event) == Progress::<
            PortGuard,
            bool,
        >::Done(true),
        (BackendStart::Guarding { guard }).next(event) == Progress::<
            BackendStart,
            Result<(), ServiceError>,
        >::Done(Err(ServiceError::PortConflict { port: BACKEND_PORT })) <==> guard.next(event)
            == Progress::<PortGuard, bool>::Done(false),
{
}

/// What a backend start can find out about its surroundings.
pub struct BackendFacts {
    /// What the port guard finds on the backend port.
    pub port: PortFacts,
    /// Why the backend cannot be launched, if it cannot.
    pub spawn_failure: Option<SpawnFailure>,
}

impl BackendFacts {
    /// The report that the action pending in `start` gets.
    pub open spec fn answer(self, start: BackendStart) -> Event {
        match start {
            BackendStart::Guarding { guard } => self.port.answer(guard),
            BackendStart::Spawning => Event::BackendSpawned { failure: self.spawn_failure },
        }
    }

    /// What a backend start comes to: a port that is not and cannot be made
    /// free is a conflict; otherwise the backend is spawned, and a launch
    /// that fails is an error.
    pub open spec fn outcome(self) -> Result<(), ServiceError> {
        if !self.port.freed() {
            Err(ServiceError::PortConflict { port: BACKEND_PORT })
        } else {
            match self.spawn_failure {
                None => Ok(()),
                Some(SpawnFailure::Command { reason }) => Err(
                    ServiceError::ProcessSpawnError { process: Process::BackendSidecar, reason },
                ),
                Some(SpawnFailure::Spawn { reason }) => Err(
                    ServiceError::ProcessSpawnError { process: Process::Backend, reason },
                ),
            }
        }
    }
}

/// Where a backend start is after at most `steps` of its actions were
/// performed and answered as `facts` says.
pub open spec fn backend_run(facts: BackendFacts, start: BackendStart, steps: nat) -> Progress<
    BackendStart,
    Result<(), ServiceError>,
>
    decreases steps,
{
    if steps == 0 {
        Progress::Pending(start)
    } else {
        match start.next(facts.answer(start)) {
            Progress::Pending(after) => backend_run(facts, after, (steps - 1) as nat),
            Progress::Done(result) => Progress::Done(result),
        }
    }
}

/// A start that has come to its end stays there, however many more steps it is given.
pub proof fn lemma_backend_run_settles(
    facts: BackendFacts,
    start: BackendStart,
    steps: nat,
    more: nat,
)
    requires
        backend_run(facts, start, steps) is Done,
    ensures
        backend_run(facts, start, steps + more) == backend_run(facts, start, steps),
    decreases steps,
{
    if let Progress::Pending(after) = start.next(facts.answer(start)) {
        lemma_backend_run_settles(facts, after, (steps - 1) as nat, more);
    }
}

/// While the guard is at work the start does what the guard does, and then
/// goes on from the guard's verdict.
proof fn lemma_backend_follows_guard(
    facts: BackendFacts,
    guard: PortGuard,
    guard_steps: nat,
)
    requires
        guard_run(facts.port, guard, guard_steps) == Progress::<PortGuard, bool>::Done(
            facts.port.freed(),
        ),
    ensures
        backend_run(facts, BackendStart::Guarding { guard }, guard_steps + 1) == Progress::<
            BackendStart,
            Result<(), ServiceError>,
        >::Done(facts.outcome()),
    decreases guard_steps,
{
    reveal_with_fuel(backend_run, 2);
    if let Progress::Pending(after) = guard.next(facts.port.answer(guard)) {
        lemma_backend_follows_guard(facts, after, (guard_steps - 1) as nat);
    }
}

/// What a backend start does, in one sentence: performed to its end,
/// whatever its surroundings are, it comes to what `BackendFacts::outcome`
/// describes. It needs no more steps than the guard does and one more.
pub proof fn lemma_backend_outcome(facts: BackendFacts, steps: nat)
    requires
        steps >= facts.port.owner_count() + 5,
    ensures
        backend_run(
            facts,
            BackendStart::Guarding { guard: PortGuard::Checking { port: BACKEND_PORT } },
            steps,
        ) == Progress::<BackendStart, Result<(), ServiceError>>::Done(facts.outcome()),
{
    let begin = BackendStart::Guarding { guard: PortGuard::Checking { port: BACKEND_PORT } };
    let guard_steps = facts.port.owner_count() + 4;
    lemma_guard_verdict(BACKEND_PORT, facts.port, guard_steps);
    lemma_backend_follows_guard(facts, PortGuard::Checking { port: BACKEND_PORT }, guard_steps);
    lemma_backend_run_settles(facts, begin, guard_steps + 1, (steps - guard_steps - 1) as nat);
}

/// The name under which the backend is bundled with the application.
pub const BACKEND_SIDECAR: &'static str = "backend";

/// The environment the backend runs with: it is told to use the local
/// database, and where and as whom to reach it.
pub open spec fn backend_env_spec() -> Seq<(Seq<char>, Seq<char>)> {
    seq![
        ("USE_LOCAL_DB"@, "true"@),
        ("LOCAL_DB_HOST"@, "localhost"@),
        ("LOCAL_DB_PORT"@, decimal(DATABASE_PORT as nat)),
        ("LOCAL_DB_NAME"@, "bdent"@),
        ("LOCAL_DB_USER"@, "postgres"@),
        ("LOCAL_DB_PASSWORD"@, "postgres"@),
    ]
}

/// The environment variables to spawn the backend with.
pub fn backend_env() -> (env: Vec<(String, String)>)
    ensures
        env.deep_view() == backend_env_spec(),
{
    let mut env: Vec<(String, String)> = Vec::new();
    env.push((String::from_str("USE_LOCAL_DB"), String::from_str("true")));
    env.push((String::from_str("LOCAL_DB_HOST"), String::from_str("localhost")));
    env.push((String::from_str("LOCAL_DB_PORT"), format_decimal(DATABASE_PORT as u64)));
    env.push((String::from_str("LOCAL_DB_NAME"), String::from_str("bdent")));
    env.push((String::from_str("LOCAL_DB_USER"), String::from_str("postgres")));
    env.push((String::from_str("LOCAL_DB_PASSWORD"), String::from_str("postgres")));
    env
}

} // verus!
