//! The port guard: makes a TCP port free if it can.

use vstd::prelude::*;
use vstd::string::*;
use crate::protocol::{Action, Event, Progress, PORT_SETTLE_MILLIS};
use crate::text::{
    chars_of,
    joined,
    decimal,
    format_decimal,
    format_signed,
    parse_i32,
    parse_i32_in,
    signed_decimal,
    trim,
    trim_bounds,
};

verus! {

/// A port and, while its owners are being terminated, the process that is next to go.
#[derive(Debug, Clone, Copy, PartialEq, Eq, Structural)]
pub struct PortBinding {
    pub port: u16,
    pub owner_pid: Option<i32>,
}

/// The port guard at work.
///
/// A free port is left alone. For an occupied one the guard asks who holds
/// it, has each owner killed, waits for the processes to die and looks again.
/// Where the owners cannot be listed the port counts as not freed. That the
/// guard cannot free a port is an ordinary outcome, not an error.
#[derive(Debug, PartialEq, Eq)]
pub enum PortGuard {
    /// The port has not been looked at yet.
    Checking { port: u16 },
    /// The port is occupied; its owners are being listed.
    Listing { port: u16 },
    /// The owners from `next` on are still to be killed; after the last one
    /// comes the settling pause.
    Killing { port: u16, owners: Vec<i32>, next: usize },
    /// The pause is over; the port is being looked at again.
    Rechecking { port: u16 },
}

impl PortGuard {
    /// The port this guard works on.
    pub open spec fn port_spec(self) -> u16 {
        match self {
            PortGuard::Checking { port } => port,
            PortGuard::Listing { port } => port,
            PortGuard::Killing { port, .. } => port,
            PortGuard::Rechecking { port } => port,
        }
    }

    /// The action the guard waits for.
    pub open spec fn pending_spec(self) -> Action {
        match self {
            PortGuard::Checking { port } => Action::CheckPort { port },
            PortGuard::Listing { port } => Action::ListPortOwners { port },
            PortGuard::Killing { owners, next, .. } => if next < owners@.len() {
                Action::KillProcess { pid: owners@[next as int] }
            } else {
                Action::Sleep { millis: PORT_SETTLE_MILLIS }
            },
            PortGuard::Rechecking { port } => Action::CheckPort { port },
        }
    }

    /// What `event` leads to: the guard's next state, or its verdict on
    /// whether the port is free.
    pub open spec fn next(self, event: Event) -> Progress<PortGuard, bool> {
        match self {
            PortGuard::Checking { port } => match event {
                Event::PortChecked { free } => if free {
                    Progress::Done(true)
                } else {
                    Progress::Pending(PortGuard::Listing { port })
                },
                _ => Progress::Pending(self),
            },
            PortGuard::Listing { port } => match event {
                Event::OwnersListed { owners: Some(owners) } => Progress::Pending(
                    PortGuard::Killing { port, owners, next: 0 },
                ),
                Event::OwnersListed { owners: None } => Progress::Done(false),
                _ => Progress::Pending(self),
            },
            PortGuard::Killing { port, owners, next } => match event {
                Event::ProcessKilled => if next < owners@.len() {
                    Progress::Pending(
                        PortGuard::Killing { port, owners, next: (next + 1) as usize },
                    )
                } else {
                    Progress::Pending(self)
                },
                Event::Slept => if next < owners@.len() {
                    Progress::Pending(self)
                } else {
                    Progress::Pending(PortGuard::Rechecking { port })
                },
                _ => Progress::Pending(self),
            },
            PortGuard::Rechecking { port } => match event {
                Event::PortChecked { free } => Progress::Done(free),
                _ => Progress::Pending(self),
            },
        }
    }

    /// A guard for `port` that has done nothing yet.
    pub fn free_port(port: u16) -> (guard: PortGuard)
        ensures
            guard == (PortGuard::Checking { port }),
    {
        PortGuard::Checking { port }
    }

    /// The port this guard works on.
    pub fn port(&self) -> (port: u16)
        ensures
            port == self.port_spec(),
    {
        match self {
            PortGuard::Checking { port } => *port,
            PortGuard::Listing { port } => *port,
            PortGuard::Killing { port, .. } => *port,
            PortGuard::Rechecking { port } => *port,
        }
    }

    /// The action to perform now.
    pub fn pending(&self) -> (action: Action)
        ensures
            action == self.pending_spec(),
    {
        match self {
            PortGuard::Checking { port } => Action::CheckPort { port: *port },
            PortGuard::Listing { port } => Action::ListPortOwners { port: *port },
            PortGuard::Killing { owners, next, .. } => {
                if *next < owners.len() {
                    Action::KillProcess { pid: owners[*next] }
                } else {
                    Action::Sleep { millis: PORT_SETTLE_MILLIS }
                }
            },
            PortGuard::Rechecking { port } => Action::CheckPort { port: *port },
        }
    }

    /// The port together with the owner that is about to be killed, if one is.
    pub fn binding(&self) -> (binding: PortBinding)
        ensures
            binding.port == self.port_spec(),
            binding.owner_pid == (match self.pending_spec() {
                Action::KillProcess { pid } => Some(pid),
                _ => None,
            }),
    {
        let owner_pid = match self.pending() {
            Action::KillProcess { pid } => Some(pid),
            _ => None,
        };
        PortBinding { port: self.port(), owner_pid }
    }

    /// Takes in what happened and moves on.
    pub fn advance(self, event: Event) -> (after: Progress<PortGuard, bool>)
        ensures
            after == self.next(event),
    {
        match self {
            PortGuard::Checking { port } => match event {
                Event::PortChecked { free } => if free {
                    Progress::Done(true)
                } else {
                    Progress::Pending(PortGuard::Listing { port })
                },
                _ => Progress::Pending(PortGuard::Checking { port }),
            },
            PortGuard::Listing { port } => match event {
                Event::OwnersListed { owners: Some(owners) } => Progress::Pending(
                    PortGuard::Killing { port, owners, next: 0 },
                ),
                Event::OwnersListed { owners: None } => Progress::Done(false),
                _ => Progress::Pending(PortGuard::Listing { port }),
            },
            PortGuard::Killing { port, owners, next } => match event {
                Event::ProcessKilled => if next < owners.len() {
                    Progress::Pending(PortGuard::Killing { port, owners, next: next + 1 })
                } else {
                    Progress::Pending(PortGuard::Killing { port, owners, next })
                },
                Event::Slept => if next < owners.len() {
                    Progress::Pending(PortGuard::Killing { port, owners, next })
                } else {
                    Progress::Pending(PortGuard::Rechecking { port })
                },
                _ => Progress::Pending(PortGuard::Killing { port, owners, next }),
            },
            PortGuard::Rechecking { port } => match event {
                Event::PortChecked { free } => Progress::Done(free),
                _ => Progress::Pending(PortGuard::Rechecking { port }),
            },
        }
    }
}

/// The guard after `events` were reported to a fresh guard for `port`, in
/// order; `Done` from the event on that gave the verdict.
pub open spec fn guard_after(port: u16, events: Seq<Event>) -> Progress<PortGuard, bool>
    decreases events.len(),
{
    if events.len() == 0 {
        Progress::Pending(PortGuard::Checking { port })
    } else {
        match guard_after(port, events.drop_last()) {
            Progress::Pending(guard) => guard.next(events.last()),
            Progress::Done(free) => Progress::Done(free),
        }
    }
}

/// Whether some event in `events` reports a port as free.
pub open spec fn seen_free(events: Seq<Event>) -> bool {
    exists|i: int| 0 <= i < events.len() && #[trigger] events[i] == (Event::PortChecked {
        free: true,
    })
}

/// Whether some event in `events` reports a port as occupied.
pub open spec fn seen_occupied(events: Seq<Event>) -> bool {
    exists|i: int| 0 <= i < events.len() && #[trigger] events[i] == (Event::PortChecked {
        free: false,
    })
}

/// An event that does not answer the guard's pending action changes nothing.
pub proof fn lemma_guard_ignores_unrelated(guard: PortGuard, event: Event)
    requires
        !crate::protocol::answers(guard.pending_spec(), event),
    ensures
        guard.next(event) == Progress::<PortGuard, bool>::Pending(guard),
{
}

/// The guard stays with its port.
pub proof fn lemma_guard_keeps_port(guard: PortGuard, event: Event)
    ensures
        guard.next(event) matches Progress::Pending(after) ==> after.port_spec()
            == guard.port_spec(),
{
}

/// Whether some event in `events` is a listing with exactly the owners `owners`.
pub open spec fn seen_listed(events: Seq<Event>, owners: Vec<i32>) -> bool {
    exists|i: int| 0 <= i < events.len() && #[trigger] events[i] == (Event::OwnersListed {
        owners: Some(owners),
    })
}

/// The guard acts on what it was told and on nothing else. It says "free"
/// only after a check of the port said so. It asks for a listing, a kill or
/// a pause only after a check found the port occupied. The processes it has
/// killed are owners that a listing named, and it stays with its port.
pub proof fn lemma_guard_acts_on_evidence(port: u16, events: Seq<Event>)
    ensures
        guard_after(port, events) == Progress::<PortGuard, bool>::Done(true) ==> seen_free(events),
        guard_after(port, events) matches Progress::Pending(guard) ==> (guard.pending_spec()
            is CheckPort && guard is Checking) || seen_occupied(events),
        guard_after(port, events) matches Progress::Pending(guard) ==> guard.port_spec() == port,
        guard_after(port, events) matches Progress::Pending(PortGuard::Killing { owners, next, .. })
            ==> seen_listed(events, owners) && next <= owners@.len(),
    decreases events.len(),
{
    if events.len() > 0 {
        let before = events.drop_last();
        lemma_guard_acts_on_evidence(port, before);
        // What was seen before stays seen, and the last event is seen now.
        if seen_free(before) {
            let i = choose|i: int| 0 <= i < before.len() && #[trigger] before[i] == (
            Event::PortChecked { free: true });
            assert(events[i] == before[i]);
        }
        if seen_occupied(before) {
            let i = choose|i: int| 0 <= i < before.len() && #[trigger] before[i] == (
            Event::PortChecked { free: false });
            assert(events[i] == before[i]);
        }
        if let Progress::Pending(PortGuard::Killing { owners, .. }) = guard_after(port, before) {
            let i = choose|i: int| 0 <= i < before.len() && #[trigger] before[i] == (
            Event::OwnersListed { owners: Some(owners) });
            assert(events[i] == before[i]);
        }
        assert(events[events.len() - 1] == events.last());
    }
}

/// What the guard can find out about a port: what each of its questions
/// is answered.
pub struct PortFacts {
    /// Whether the port is free when the guard first looks.
    pub free: bool,
    /// The processes that hold the port; `None` where they cannot be listed.
    pub owners: Option<Vec<i32>>,
    /// Whether the port is free when the guard looks again after the kills.
    pub free_after_kills: bool,
}

impl PortFacts {
    /// How many owners a listing names.
    pub open spec fn owner_count(self) -> nat {
        match self.owners {
            Some(owners) => owners@.len(),
            None => 0,
        }
    }

    /// What the guard comes to: the port is free if it is free at once, or if
    /// its owners could be listed and it was free after they were killed.
    pub open spec fn freed(self) -> bool {
        self.free || (self.owners is Some && self.free_after_kills)
    }

    /// The report that the action pending in `guard` gets.
    pub open spec fn answer(self, guard: PortGuard) -> Event {
        match guard {
            PortGuard::Checking { .. } => Event::PortChecked { free: self.free },
            PortGuard::Listing { .. } => Event::OwnersListed { owners: self.owners },
            PortGuard::Killing { owners, next, .. } => if next < owners@.len() {
                Event::ProcessKilled
            } else {
                Event::Slept
            },
            PortGuard::Rechecking { .. } => Event::PortChecked { free: self.free_after_kills },
        }
    }
}

/// Where the guard is after at most `steps` of its actions were performed
/// and answered as `facts` says.
pub open spec fn guard_run(facts: PortFacts, guard: PortGuard, steps: nat) -> Progress<
    PortGuard,
    bool,
>
    decreases steps,
{
    if steps == 0 {
        Progress::Pending(guard)
    } else {
        match guard.next(facts.answer(guard)) {
            Progress::Pending(after) => guard_run(facts, after, (steps - 1) as nat),
            Progress::Done(free) => Progress::Done(free),
        }
    }
}

/// A guard that has come to its verdict keeps it, however many more steps it is given.
pub proof fn lemma_guard_run_settles(facts: PortFacts, guard: PortGuard, steps: nat, more: nat)
    requires
        guard_run(facts, guard, steps) is Done,
    ensures
        guard_run(facts, guard, steps + more) == guard_run(facts, guard, steps),
    decreases steps,
{
    if let Progress::Pending(after) = guard.next(facts.answer(guard)) {
        lemma_guard_run_settles(facts, after, (steps - 1) as nat, more);
    }
}

/// Once the listing is in, the guard kills every owner that is left, pauses,
/// looks again and reports what it then sees.
proof fn lemma_guard_kills_all(
    facts: PortFacts,
    port: u16,
    owners: Vec<i32>,
    next: usize,
    steps: nat,
)
    requires
        next <= owners@.len(),
        steps >= owners@.len() - next + 2,
    ensures
        guard_run(facts, PortGuard::Killing { port, owners, next }, steps) == Progress::<
            PortGuard,
            bool,
        >::Done(facts.free_after_kills),
    decreases owners@.len() - next,
{
    if next < owners@.len() {
        assert(owners@.len() == owners.len());
        lemma_guard_kills_all(facts, port, owners, (next + 1) as usize, (steps - 1) as nat);
    } else {
        reveal_with_fuel(guard_run, 3);
    }
}

/// What the guard does, in one sentence: performed to its end, whatever the
/// port's surroundings are, it reports the port as free exactly if the port
/// was free at once, or if its owners could be listed and the port was free
/// after they were killed. It needs no more steps than two looks, a
/// listing, a pause and one kill for each owner.
pub proof fn lemma_guard_verdict(port: u16, facts: PortFacts, steps: nat)
    requires
        steps >= facts.owner_count() + 4,
    ensures
        guard_run(facts, PortGuard::Checking { port }, steps) == Progress::<
            PortGuard,
            bool,
        >::Done(facts.freed()),
{
    reveal_with_fuel(guard_run, 3);
    if !facts.free {
        if let Some(owners) = facts.owners {
            lemma_guard_kills_all(facts, port, owners, 0, (steps - 2) as nat);
        }
    }
}

/// The arguments with which `lsof` prints the ids of the processes that hold
/// `port`, one to a line: `-ti :<port>`.
pub open spec fn lsof_args_spec(port: u16) -> Seq<Seq<char>> {
    seq!["-ti"@, ":"@ + decimal(port as nat)]
}

/// The arguments with which `kill` terminates `pid` at once: `-9 <pid>`.
pub open spec fn kill_args_spec(pid: i32) -> Seq<Seq<char>> {
    seq!["-9"@, signed_decimal(pid as int)]
}

/// The arguments for `lsof` to list the owners of `port`.
pub fn lsof_args(port: u16) -> (args: Vec<String>)
    ensures
        args.deep_view() == lsof_args_spec(port),
{
    let number = format_decimal(port as u64);
    let mut args: Vec<String> = Vec::new();
    args.push(String::from_str("-ti"));
    args.push(joined(":", number.as_str()));
    args
}

/// The arguments for `kill` to terminate `pid`.
pub fn kill_args(pid: i32) -> (args: Vec<String>)
    ensures
        args.deep_view() == kill_args_spec(pid),
{
    let mut args: Vec<String> = Vec::new();
    args.push(String::from_str("-9"));
    args.push(format_signed(pid));
    args
}

/// The length of the first line of `text`: the number of characters before
/// its first line feed, or all of them if it has none.
pub open spec fn line_len(text: Seq<char>) -> nat
    decreases text.len(),
{
    if text.len() == 0 || text[0] == '\n' {
        0
    } else {
        1 + line_len(text.skip(1))
    }
}

/// The process ids in a listing, in order. Each line is read on its own,
/// without the white space around it (a carriage return before the line feed
/// is white space); a line that does not spell an `i32` gives nothing.
pub open spec fn owner_pids(listing: Seq<char>) -> Seq<i32>
    decreases listing.len(),
{
    let n = line_len(listing);
    let first = match parse_i32(trim(listing.take(n as int))) {
        Some(pid) => seq![pid],
        None => seq![],
    };
    if n >= listing.len() {
        first
    } else {
        first + owner_pids(listing.skip(n as int + 1))
    }
}

/// A stretch without line feed that ends at a line feed or at the end of the
/// text is the first line.
proof fn lemma_line_found(text: Seq<char>, n: int)
    requires
        0 <= n <= text.len(),
        forall|k: int| 0 <= k < n ==> text[k] != '\n',
        n == text.len() || text[n] == '\n',
    ensures
        line_len(text) == n,
    decreases n,
{
    if n > 0 {
        let rest = text.skip(1);
        assert forall|k: int| 0 <= k < n - 1 implies rest[k] != '\n' by {
            assert(rest[k] == text[k + 1]);
        }
        lemma_line_found(rest, n - 1);
    }
}

/// Reads the process ids out of a listing, one line at a time.
pub fn port_owners(listing: &str) -> (owners: Vec<i32>)
    ensures
        owners@ == owner_pids(listing@),
{
    let chars = chars_of(listing);
    let mut owners: Vec<i32> = Vec::new();
    let mut start: usize = 0;
    assert(chars@.skip(0) =~= chars@);
    loop
        invariant_except_break
            start <= chars@.len(),
            owners@ + owner_pids(chars@.skip(start as int)) == owner_pids(chars@),
        invariant
            chars@ == listing@,
        ensures
            owners@ == owner_pids(chars@),
        decreases chars@.len() - start,
    {
        let mut end: usize = start;
        while end < chars.len() && chars[end] != '\n'
            invariant
                start <= end <= chars@.len(),
                forall|k: int| start <= k < end ==> chars@[k] != '\n',
            decreases chars@.len() - end,
        {
            end = end + 1;
        }
        let ghost rest = chars@.skip(start as int);
        let ghost before = owners@;
        proof {
            assert forall|k: int| 0 <= k < end - start implies rest[k] != '\n' by {
                assert(rest[k] == chars@[start + k]);
            }
            lemma_line_found(rest, end - start);
            assert(rest.take(end - start) =~= chars@.subrange(start as int, end as int));
        }
        let (from, to) = trim_bounds(&chars, start, end);
        match parse_i32_in(&chars, from, to) {
            Some(pid) => {
                owners.push(pid);
            },
            None => {},
        }
        if end >= chars.len() {
            break ;
        }
        proof {
            assert(rest.skip(end - start + 1) =~= chars@.skip(end + 1));
        }
        start = end + 1;
    }
    owners
}

/// Reads the process ids out of what `lsof` printed.
pub fn port_owners_in_output(output: &[u8]) -> (owners: Vec<i32>)
    ensures
        owners@ == owner_pids(crate::text::lossy_text(output@)),
{
    let listing = crate::text::decode_lossy(output);
    port_owners(listing.as_str())
}

} // verus!
