//! The loopback sign-in flow: a short-lived local listener receives the
//! identity provider's redirect from the system browser and hands it to the
//! caller that waits for it, once.

use vstd::prelude::*;
use vstd::string::*;
use crate::error::{Process, ServiceError};
use crate::text::same_text;

verus! {

/// The local port that the identity provider redirects to.
pub const OAUTH_CALLBACK_PORT: u16 = 8080;

/// How long the flow waits for the callback.
pub const OAUTH_TIMEOUT_MILLIS: u64 = 300_000;

/// How long the listener is given to come up before the browser is opened.
pub const BROWSER_DELAY_MILLIS: u64 = 100;

/// What the capture page posts: the redirect's fragment, or its query string
/// where it has no fragment. The flow does not look inside.
#[derive(Debug, Clone, PartialEq, Eq)]
pub struct TokenPayload {
    pub fragment: String,
}

/// The answer to a posted payload.
#[derive(Debug, Clone, PartialEq, Eq)]
pub struct TokenResponse {
    pub success: bool,
    pub message: String,
}

/// A single-use rendezvous slot: it accepts one completion, and hands the
/// completed value out once.
#[derive(Debug, PartialEq, Eq)]
pub enum RendezvousSlot {
    /// Nothing has arrived yet.
    Open,
    /// A value has arrived and waits to be collected.
    Completed { fragment: String },
    /// The value has been collected.
    Collected,
}

impl RendezvousSlot {
    /// The slot after a completion with `fragment` was attempted: an open
    /// slot takes the value, any other stays as it is.
    pub open spec fn completed_with(self, fragment: String) -> RendezvousSlot {
        match self {
            RendezvousSlot::Open => RendezvousSlot::Completed { fragment },
            _ => self,
        }
    }

    /// The slot after a collection was attempted.
    pub open spec fn collected(self) -> RendezvousSlot {
        match self {
            RendezvousSlot::Completed { .. } => RendezvousSlot::Collected,
            _ => self,
        }
    }

    /// The value that waits to be collected, if one does.
    pub open spec fn waiting_value(self) -> Option<String> {
        match self {
            RendezvousSlot::Completed { fragment } => Some(fragment),
            _ => None,
        }
    }

    /// A slot that nothing has arrived in.
    pub fn new() -> (slot: RendezvousSlot)
        ensures
            slot == RendezvousSlot::Open,
    {
        RendezvousSlot::Open
    }

    /// Completes the slot with `fragment` if it is open; otherwise leaves it
    /// as it is and says that it was completed already.
    pub fn complete(&mut self, fragment: String) -> (result: Result<(), ServiceError>)
        ensures
            *final(self) == old(self).completed_with(fragment),
            result == (if *old(self) == RendezvousSlot::Open {
                Ok::<(), ServiceError>(())
            } else {
                Err::<(), ServiceError>(ServiceError::AlreadyCompleted)
            }),
    {
        match self {
            RendezvousSlot::Open => {
                *self = RendezvousSlot::Completed { fragment };
                Ok(())
            },
            _ => Err(ServiceError::AlreadyCompleted),
        }
    }

    /// Collects the completed value, if one waits; it can be collected once.
    pub fn take(&mut self) -> (value: Option<String>)
        ensures
            value == old(self).waiting_value(),
            *final(self) == old(self).collected(),
    {
        let mut slot = RendezvousSlot::Collected;
        std::mem::swap(self, &mut slot);
        match slot {
            RendezvousSlot::Completed { fragment } => Some(fragment),
            RendezvousSlot::Open => {
                *self = RendezvousSlot::Open;
                None
            },
            RendezvousSlot::Collected => None,
        }
    }
}

/// The answer that a posted payload gets when it reaches a slot in state `slot`.
pub open spec fn token_response(slot: RendezvousSlot) -> (bool, Seq<char>) {
    if slot == RendezvousSlot::Open {
        (true, "Token received"@)
    } else {
        (false, "Token already received"@)
    }
}

/// Handles a posted payload: completes the slot with the payload's fragment,
/// as it stands, if the slot is open, and answers with success; answers that
/// the token was received already if it is not.
pub fn handle_token(slot: &mut RendezvousSlot, payload: TokenPayload) -> (response: TokenResponse)
    ensures
        *final(slot) == old(slot).completed_with(payload.fragment),
        (response.success, response.message@) == token_response(*old(slot)),
{
    match slot.complete(payload.fragment) {
        Ok(()) => TokenResponse { success: true, message: String::from_str("Token received") },
        Err(_) => TokenResponse {
            success: false,
            message: String::from_str("Token already received"),
        },
    }
}

/// The slot after the payloads `fragments` reached it, in order.
pub open spec fn after_completions(slot: RendezvousSlot, fragments: Seq<String>) -> RendezvousSlot
    decreases fragments.len(),
{
    if fragments.len() == 0 {
        slot
    } else {
        after_completions(slot, fragments.drop_last()).completed_with(fragments.last())
    }
}

/// How many of the payloads `fragments`, reaching the slot in order, are answered with success.
pub open spec fn successes(slot: RendezvousSlot, fragments: Seq<String>) -> nat
    decreases fragments.len(),
{
    if fragments.len() == 0 {
        0
    } else {
        let earlier = fragments.drop_last();
        successes(slot, earlier) + if token_response(after_completions(slot, earlier)).0 {
            1nat
        } else {
            0nat
        }
    }
}

/// The slot accepts exactly one completion: of any number of payloads that
/// reach an open slot, in whatever order, the first is answered with
/// success and is the one that the slot holds; every other one is told
/// that the token was received already.
pub proof fn lemma_exactly_one_completion(fragments: Seq<String>)
    requires
        fragments.len() > 0,
    ensures
        successes(RendezvousSlot::Open, fragments) == 1,
        after_completions(RendezvousSlot::Open, fragments) == (RendezvousSlot::Completed {
            fragment: fragments[0],
        }),
        forall|k: int|
            0 <= k < fragments.len() ==> #[trigger] token_response(
                after_completions(RendezvousSlot::Open, fragments.take(k)),
            ).0 == (k == 0),
    decreases fragments.len(),
{
    let earlier = fragments.drop_last();
    if earlier.len() > 0 {
        lemma_exactly_one_completion(earlier);
    } else {
        assert(successes(RendezvousSlot::Open, earlier) == 0);
    }
    assert forall|k: int| 0 <= k < fragments.len() implies #[trigger] token_response(
        after_completions(RendezvousSlot::Open, fragments.take(k)),
    ).0 == (k == 0) by {
        if k < earlier.len() {
            assert(fragments.take(k) == earlier.take(k));
        } else {
            assert(fragments.take(k) == earlier);
        }
    }
}

/// Two payloads with different fragments, in either order: one success, one
/// "already received", and the slot keeps the one that came first.
pub proof fn lemma_two_callbacks(first: String, second: String)
    ensures
        token_response(RendezvousSlot::Open).0,
        !token_response(RendezvousSlot::Open.completed_with(first)).0,
        RendezvousSlot::Open.completed_with(first).completed_with(second) == (
        RendezvousSlot::Completed { fragment: first }),
        RendezvousSlot::Open.completed_with(second).completed_with(first) == (
        RendezvousSlot::Completed { fragment: second }),
{
}

/// One sign-in that waits for its callback.
#[derive(Debug, PartialEq, Eq)]
pub struct PendingAuth {
    /// A token that tells this sign-in from others.
    pub id: u64,
    /// When the sign-in began, in milliseconds on the caller's clock.
    pub created_at: u64,
    /// How long after its beginning the sign-in gives up, in milliseconds.
    pub timeout_millis: u64,
    /// Where the callback is handed over.
    pub resolver: RendezvousSlot,
}

/// What a look at a pending sign-in finds.
#[derive(Debug, PartialEq, Eq)]
pub enum AuthPoll {
    /// The callback has arrived; this is its fragment.
    Ready { fragment: String },
    /// No callback has arrived and the window is over.
    TimedOut,
    /// No callback has arrived yet; the window is open for this much longer.
    Waiting { remaining_millis: u64 },
}

impl PendingAuth {
    /// The time that has passed since the sign-in began; none if the clock went back.
    pub open spec fn elapsed(self, now: u64) -> int {
        if now >= self.created_at {
            now - self.created_at
        } else {
            0
        }
    }

    /// What a look at time `now` finds: the callback if one waits, else
    /// whether the window is over.
    pub open spec fn poll_spec(self, now: u64) -> AuthPoll {
        match self.resolver {
            RendezvousSlot::Completed { fragment } => AuthPoll::Ready { fragment },
            _ => if self.elapsed(now) >= self.timeout_millis {
                AuthPoll::TimedOut
            } else {
                AuthPoll::Waiting {
                    remaining_millis: (self.timeout_millis - self.elapsed(now)) as u64,
                }
            },
        }
    }

    /// The sign-in after a look: a callback that was found is collected.
    pub open spec fn polled(self) -> PendingAuth {
        PendingAuth {
            id: self.id,
            created_at: self.created_at,
            timeout_millis: self.timeout_millis,
            resolver: self.resolver.collected(),
        }
    }

    /// A sign-in that begins at `now` and gives up `timeout_millis` later, with an open slot.
    pub fn new(id: u64, now: u64, timeout_millis: u64) -> (pending: PendingAuth)
        ensures
            pending == (PendingAuth {
                id,
                created_at: now,
                timeout_millis,
                resolver: RendezvousSlot::Open,
            }),
    {
        PendingAuth { id, created_at: now, timeout_millis, resolver: RendezvousSlot::new() }
    }

    /// Looks whether the callback has arrived or the window is over. A
    /// callback that has arrived is collected and wins over the clock.
    pub fn poll(&mut self, now: u64) -> (found: AuthPoll)
        ensures
            found == old(self).poll_spec(now),
            *final(self) == old(self).polled(),
    {
        match self.resolver.take() {
            Some(fragment) => AuthPoll::Ready { fragment },
            None => {
                let elapsed: u64 = if now >= self.created_at {
                    now - self.created_at
                } else {
                    0
                };
                if elapsed >= self.timeout_millis {
                    AuthPoll::TimedOut
                } else {
                    AuthPoll::Waiting { remaining_millis: self.timeout_millis - elapsed }
                }
            },
        }
    }
}

/// With no callback ever arriving, a sign-in times out exactly when its
/// window is over: not before, and at every look from then on. Looking
/// changes nothing.
pub proof fn lemma_timeout_after_window(pending: PendingAuth, now: u64)
    requires
        pending.resolver == RendezvousSlot::Open,
        now >= pending.created_at,
    ensures
        pending.poll_spec(now) == AuthPoll::TimedOut <==> now - pending.created_at
            >= pending.timeout_millis,
        now - pending.created_at < pending.timeout_millis ==> pending.poll_spec(now) == (
        AuthPoll::Waiting {
            remaining_millis: (pending.timeout_millis - (now - pending.created_at)) as u64,
        }),
        pending.polled() == pending,
{
}

/// What the flow asks the surrounding program to do.
#[derive(Debug, PartialEq, Eq)]
pub enum AuthAction {
    /// Bind the listener on the loopback interface and begin to serve.
    Bind { port: u16 },
    /// Let the given time pass.
    Sleep { millis: u64 },
    /// Open the system browser on this address.
    OpenBrowser { url: String },
    /// Wait until a callback arrives, for at most this long, and then say when it is.
    AwaitCallback { millis: u64 },
    /// Nothing is left to do.
    Finish,
}

/// What happened when the surrounding program performed an [`AuthAction`].
#[derive(Debug, Clone, PartialEq, Eq)]
pub enum AuthEvent {
    /// Answers `Bind`; `error` says why the port could not be bound, if it could not.
    Bound { error: Option<String> },
    /// Answers `Sleep`.
    Slept,
    /// Answers `OpenBrowser`; `error` says why the browser did not open, if it did not.
    BrowserOpened { error: Option<String> },
    /// Answers `AwaitCallback`: the wait is over, at time `now`.
    Woken { now: u64 },
    /// The listener is gone, so no callback will arrive.
    ChannelClosed,
}

/// A sign-in flow.
///
/// The listener is bound first; a port that is taken ends the flow. After a
/// short pause, so that the listener is up, the browser is opened. Then the
/// flow waits for the callback or for the end of the window, whichever
/// comes first.
#[derive(Debug, PartialEq, Eq)]
pub enum AuthFlow {
    /// The listener is being bound.
    Binding { oauth_url: String },
    /// The listener is given time to come up.
    Settling { oauth_url: String },
    /// The browser is being opened.
    OpeningBrowser { oauth_url: String },
    /// The flow waits for the callback; `millis` is how long the window is still open.
    Waiting { millis: u64 },
    /// The flow is over.
    Finished { outcome: Result<String, ServiceError> },
}

impl AuthFlow {
    /// The action the flow waits for.
    pub open spec fn pending_spec(self) -> AuthAction {
        match self {
            AuthFlow::Binding { .. } => AuthAction::Bind { port: OAUTH_CALLBACK_PORT },
            AuthFlow::Settling { .. } => AuthAction::Sleep { millis: BROWSER_DELAY_MILLIS },
            AuthFlow::OpeningBrowser { oauth_url } => AuthAction::OpenBrowser { url: oauth_url },
            AuthFlow::Waiting { millis } => AuthAction::AwaitCallback { millis },
            AuthFlow::Finished { .. } => AuthAction::Finish,
        }
    }

    /// The flow, and the pending sign-in, after `event`.
    pub open spec fn next(self, event: AuthEvent, pending: PendingAuth) -> (AuthFlow, PendingAuth) {
        match self {
            AuthFlow::Binding { oauth_url } => match event {
                AuthEvent::Bound { error: None } => (AuthFlow::Settling { oauth_url }, pending),
                AuthEvent::Bound { error: Some(reason) } => (
                    AuthFlow::Finished {
                        outcome: Err(
                            ServiceError::PortInUse { port: OAUTH_CALLBACK_PORT, reason },
                        ),
                    },
                    pending,
                ),
                _ => (self, pending),
            },
            AuthFlow::Settling { oauth_url } => match event {
                AuthEvent::Slept => (AuthFlow::OpeningBrowser { oauth_url }, pending),
                _ => (self, pending),
            },
            AuthFlow::OpeningBrowser { oauth_url } => match event {
                AuthEvent::BrowserOpened { error: None } => (
                    AuthFlow::Waiting { millis: pending.timeout_millis },
                    pending,
                ),
                AuthEvent::BrowserOpened { error: Some(reason) } => (
                    AuthFlow::Finished {
                        outcome: Err(
                            ServiceError::ProcessSpawnError { process: Process::Browser, reason },
                        ),
                    },
                    pending,
                ),
                _ => (self, pending),
            },
            AuthFlow::Waiting { .. } => match event {
                AuthEvent::Woken { now } => (
                    match pending.poll_spec(now) {
                        AuthPoll::Ready { fragment } => AuthFlow::Finished {
                            outcome: Ok(fragment),
                        },
                        AuthPoll::TimedOut => AuthFlow::Finished {
                            outcome: Err(ServiceError::Timeout),
                        },
                        AuthPoll::Waiting { remaining_millis } => AuthFlow::Waiting {
                            millis: remaining_millis,
                        },
                    },
                    pending.polled(),
                ),
                AuthEvent::ChannelClosed => (
                    AuthFlow::Finished { outcome: Err(ServiceError::ChannelClosed) },
                    pending,
                ),
                _ => (self, pending),
            },
            AuthFlow::Finished { .. } => (self, pending),
        }
    }

    /// The action to perform now.
    pub fn pending(&self) -> (action: AuthAction)
        ensures
            action == self.pending_spec(),
    {
        match self {
            AuthFlow::Binding { .. } => AuthAction::Bind { port: OAUTH_CALLBACK_PORT },
            AuthFlow::Settling { .. } => AuthAction::Sleep { millis: BROWSER_DELAY_MILLIS },
            AuthFlow::OpeningBrowser { oauth_url } => AuthAction::OpenBrowser {
                url: oauth_url.clone(),
            },
            AuthFlow::Waiting { millis } => AuthAction::AwaitCallback { millis: *millis },
            AuthFlow::Finished { .. } => AuthAction::Finish,
        }
    }

    /// Takes in what happened and moves on. A look at the pending sign-in,
    /// when the flow is woken from its wait, collects the callback if it has arrived.
    pub fn advance(self, event: AuthEvent, pending: &mut PendingAuth) -> (after: AuthFlow)
        ensures
            (after, *final(pending)) == self.next(event, *old(pending)),
    {
        match self {
            AuthFlow::Binding { oauth_url } => match event {
                AuthEvent::Bound { error: None } => AuthFlow::Settling { oauth_url },
                AuthEvent::Bound { error: Some(reason) } => AuthFlow::Finished {
                    outcome: Err(ServiceError::PortInUse { port: OAUTH_CALLBACK_PORT, reason }),
                },
                _ => AuthFlow::Binding { oauth_url },
            },
            AuthFlow::Settling { oauth_url } => match event {
                AuthEvent::Slept => AuthFlow::OpeningBrowser { oauth_url },
                _ => AuthFlow::Settling { oauth_url },
            },
            AuthFlow::OpeningBrowser { oauth_url } => match event {
                AuthEvent::BrowserOpened { error: None } => AuthFlow::Waiting {
                    millis: pending.timeout_millis,
                },
                AuthEvent::BrowserOpened { error: Some(reason) } => AuthFlow::Finished {
                    outcome: Err(
                        ServiceError::ProcessSpawnError { process: Process::Browser, reason },
                    ),
                },
                _ => AuthFlow::OpeningBrowser { oauth_url },
            },
            AuthFlow::Waiting { millis } => match event {
                AuthEvent::Woken { now } => match pending.poll(now) {
                    AuthPoll::Ready { fragment } => AuthFlow::Finished { outcome: Ok(fragment) },
                    AuthPoll::TimedOut => AuthFlow::Finished {
                        outcome: Err(ServiceError::Timeout),
                    },
                    AuthPoll::Waiting { remaining_millis } => AuthFlow::Waiting {
                        millis: remaining_millis,
                    },
                },
                AuthEvent::ChannelClosed => AuthFlow::Finished {
                    outcome: Err(ServiceError::ChannelClosed),
                },
                _ => AuthFlow::Waiting { millis },
            },
            AuthFlow::Finished { outcome } => AuthFlow::Finished { outcome },
        }
    }

    /// What the flow came to, if it is over: the captured fragment, or the failure.
    pub fn outcome(self) -> (outcome: Option<Result<String, ServiceError>>)
        ensures
            outcome == (match self {
                AuthFlow::Finished { outcome } => Some(outcome),
                _ => None,
            }),
    {
        match self {
            AuthFlow::Finished { outcome } => Some(outcome),
            _ => None,
        }
    }
}

/// Begins a sign-in with the identity provider's address `oauth_url`, at
/// time `now`, that gives up after `timeout_millis`: a pending sign-in with
/// a fresh slot, and a flow that has the listener bound first.
pub fn start_oauth_flow_within(
    oauth_url: String,
    id: u64,
    now: u64,
    timeout_millis: u64,
) -> (begun: (AuthFlow, PendingAuth))
    ensures
        begun.0 == (AuthFlow::Binding { oauth_url }),
        begun.1 == (PendingAuth {
            id,
            created_at: now,
            timeout_millis,
            resolver: RendezvousSlot::Open,
        }),
{
    (AuthFlow::Binding { oauth_url }, PendingAuth::new(id, now, timeout_millis))
}

/// Begins a sign-in, as `start_oauth_flow_within` does, with the usual window of five minutes.
pub fn start_oauth_flow(oauth_url: String, id: u64, now: u64) -> (begun: (AuthFlow, PendingAuth))
    ensures
        begun.0 == (AuthFlow::Binding { oauth_url }),
        begun.1 == (PendingAuth {
            id,
            created_at: now,
            timeout_millis: OAUTH_TIMEOUT_MILLIS,
            resolver: RendezvousSlot::Open,
        }),
{
    start_oauth_flow_within(oauth_url, id, now, OAUTH_TIMEOUT_MILLIS)
}

/// A flow that waits and is woken with no callback there ends with a
/// timeout exactly when the window is over; before that it goes on waiting,
/// for what is left of the window. A callback that is there always wins.
pub proof fn lemma_flow_times_out(pending: PendingAuth, millis: u64, now: u64)
    requires
        now >= pending.created_at,
    ensures
        ({
            let after = (AuthFlow::Waiting { millis }).next(AuthEvent::Woken { now }, pending).0;
            &&& pending.resolver == RendezvousSlot::Open ==> (after == (AuthFlow::Finished {
                outcome: Err(ServiceError::Timeout),
            }) <==> now - pending.created_at >= pending.timeout_millis)
            &&& pending.resolver == RendezvousSlot::Open && now - pending.created_at
                < pending.timeout_millis ==> after == (AuthFlow::Waiting {
                millis: (pending.timeout_millis - (now - pending.created_at)) as u64,
            })
            &&& pending.resolver matches RendezvousSlot::Completed { fragment } ==> after == (
            AuthFlow::Finished { outcome: Ok(fragment) })
        }),
{
}

/// The flow and the pending sign-in after a sign-in was begun and `events`
/// were reported, in order, while nothing else touched the slot.
pub open spec fn flow_after(oauth_url: String, pending: PendingAuth, events: Seq<AuthEvent>) -> (
    AuthFlow,
    PendingAuth,
)
    decreases events.len(),
{
    if events.len() == 0 {
        (AuthFlow::Binding { oauth_url }, pending)
    } else {
        let before = flow_after(oauth_url, pending, events.drop_last());
        before.0.next(events.last(), before.1)
    }
}

/// Whether `event` is a wake-up at a time when the window of `pending` is over.
pub open spec fn is_late_wake(event: AuthEvent, pending: PendingAuth) -> bool {
    match event {
        AuthEvent::Woken { now } => pending.elapsed(now) >= pending.timeout_millis,
        _ => false,
    }
}

/// Whether some event in `events` is a wake-up at a time when the window of `pending` is over.
pub open spec fn woken_late(events: Seq<AuthEvent>, pending: PendingAuth) -> bool {
    exists|i: int| 0 <= i < events.len() && is_late_wake(#[trigger] events[i], pending)
}

/// A sign-in that no callback reaches never ends with a fragment, and it
/// ends with a timeout only after a wake-up at which its whole window had
/// passed: never earlier.
pub proof fn lemma_no_timeout_before_window(
    oauth_url: String,
    pending: PendingAuth,
    events: Seq<AuthEvent>,
)
    requires
        pending.resolver == RendezvousSlot::Open,
    ensures
        flow_after(oauth_url, pending, events).1 == pending,
        !(flow_after(oauth_url, pending, events).0 matches AuthFlow::Finished { outcome: Ok(_) }),
        flow_after(oauth_url, pending, events).0 == (AuthFlow::Finished {
            outcome: Err(ServiceError::Timeout),
        }) ==> woken_late(events, pending),
    decreases events.len(),
{
    if events.len() > 0 {
        let earlier = events.drop_last();
        lemma_no_timeout_before_window(oauth_url, pending, earlier);
        if woken_late(earlier, pending) {
            let i = choose|i: int|
                0 <= i < earlier.len() && is_late_wake(#[trigger] earlier[i], pending);
            assert(events[i] == earlier[i]);
        } else if flow_after(oauth_url, pending, events).0 == (AuthFlow::Finished {
            outcome: Err(ServiceError::Timeout),
        }) {
            assert(is_late_wake(events[events.len() - 1], pending));
        }
    }
}

/// Whether `events` holds a successful bind and, later, the end of a pause.
pub open spec fn bound_then_paused(events: Seq<AuthEvent>) -> bool {
    exists|i: int, j: int|
        0 <= i < j < events.len() && #[trigger] events[i] == (AuthEvent::Bound { error: None })
            && #[trigger] events[j] == AuthEvent::Slept
}

/// Whether `events` holds a successful bind.
pub open spec fn bound(events: Seq<AuthEvent>) -> bool {
    exists|i: int| 0 <= i < events.len() && #[trigger] events[i] == (AuthEvent::Bound { error: None })
}

/// The listener comes first: whatever is reported, the flow pauses only
/// after the listener was bound, and it asks for the browser, or waits for
/// the callback, only after the listener was bound and the pause that
/// follows the binding is over. The address that it opens is the one that
/// the sign-in was begun with.
pub proof fn lemma_listener_before_browser(
    oauth_url: String,
    pending: PendingAuth,
    events: Seq<AuthEvent>,
)
    ensures
        ({
            let flow = flow_after(oauth_url, pending, events).0;
            &&& flow is Settling ==> bound(events)
            &&& flow is OpeningBrowser || flow is Waiting ==> bound_then_paused(events)
            &&& flow.pending_spec() is OpenBrowser ==> flow.pending_spec() == (
            AuthAction::OpenBrowser { url: oauth_url })
            &&& flow matches AuthFlow::Binding { oauth_url: url } ==> url == oauth_url
            &&& flow matches AuthFlow::Settling { oauth_url: url } ==> url == oauth_url
        }),
    decreases events.len(),
{
    if events.len() > 0 {
        let earlier = events.drop_last();
        let last = events.len() - 1;
        lemma_listener_before_browser(oauth_url, pending, earlier);
        if bound(earlier) {
            let i = choose|i: int|
                0 <= i < earlier.len() && #[trigger] earlier[i] == (AuthEvent::Bound {
                    error: None,
                });
            assert(events[i] == earlier[i]);
            if events[last] == AuthEvent::Slept {
                assert(events[i] == (AuthEvent::Bound { error: None }) && events[last]
                    == AuthEvent::Slept);
            }
        }
        if bound_then_paused(earlier) {
            let (i, j) = choose|i: int, j: int|
                0 <= i < j < earlier.len() && #[trigger] earlier[i] == (AuthEvent::Bound {
                    error: None,
                }) && #[trigger] earlier[j] == AuthEvent::Slept;
            assert(events[i] == earlier[i] && events[j] == earlier[j]);
        }
        assert(events[last] == events.last());
    }
}

/// Once a flow is over nothing changes its outcome: a callback that comes
/// late, or the clock, is without effect on what the caller was told.
pub proof fn lemma_finished_flow_stays(
    outcome: Result<String, ServiceError>,
    event: AuthEvent,
    pending: PendingAuth,
)
    ensures
        (AuthFlow::Finished { outcome }).next(event, pending) == (
            AuthFlow::Finished { outcome },
            pending,
        ),
{
}

/// The request methods that the listener tells apart.
#[derive(Debug, Clone, Copy, PartialEq, Eq, Structural)]
pub enum Method {
    Get,
    Post,
    Other,
}

/// What the listener does with a request.
#[derive(Debug, Clone, Copy, PartialEq, Eq, Structural)]
pub enum Route {
    /// Serve the capture page.
    CapturePage,
    /// Hand the posted payload to the slot.
    Token,
    /// The path is served, but not with this method.
    MethodNotAllowed,
    /// The path is not served.
    NotFound,
}

/// The listener's routes: `GET /` and `GET /callback` serve the capture
/// page, `POST /token` takes the payload.
pub open spec fn route_spec(method: Method, path: Seq<char>) -> Route {
    if path == "/"@ || path == "/callback"@ {
        if method == Method::Get {
            Route::CapturePage
        } else {
            Route::MethodNotAllowed
        }
    } else if path == "/token"@ {
        if method == Method::Post {
            Route::Token
        } else {
            Route::MethodNotAllowed
        }
    } else {
        Route::NotFound
    }
}

/// Finds the route for a request.
pub fn route(method: Method, path: &str) -> (route: Route)
    ensures
        route == route_spec(method, path@),
{
    if same_text(path, "/") || same_text(path, "/callback") {
        if method == Method::Get {
            Route::CapturePage
        } else {
            Route::MethodNotAllowed
        }
    } else if same_text(path, "/token") {
        if method == Method::Post {
            Route::Token
        } else {
            Route::MethodNotAllowed
        }
    } else {
        Route::NotFound
    }
}

} // verus!
