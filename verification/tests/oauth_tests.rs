use bdent_desktop::commands::start_google_oauth;
use bdent_desktop::error::{Process, ServiceError};
use bdent_desktop::oauth::{
    handle_token, route, start_oauth_flow, start_oauth_flow_within, AuthAction, AuthEvent, AuthFlow,
    AuthPoll, Method, PendingAuth, RendezvousSlot, Route, TokenPayload, TokenResponse,
    BROWSER_DELAY_MILLIS, OAUTH_CALLBACK_PORT, OAUTH_TIMEOUT_MILLIS,
};

fn payload(fragment: &str) -> TokenPayload {
    TokenPayload { fragment: fragment.to_string() }
}

fn waiting_flow(now: u64) -> (AuthFlow, PendingAuth) {
    let (flow, mut pending) = start_oauth_flow("https://accounts.example/auth".to_string(), 7, now);
    let flow = flow.advance(AuthEvent::Bound { error: None }, &mut pending);
    let flow = flow.advance(AuthEvent::Slept, &mut pending);
    let flow = flow.advance(AuthEvent::BrowserOpened { error: None }, &mut pending);
    (flow, pending)
}

#[test]
fn flow_constants() {
    assert_eq!(OAUTH_CALLBACK_PORT, 8080);
    assert_eq!(OAUTH_TIMEOUT_MILLIS, 300_000);
    assert_eq!(BROWSER_DELAY_MILLIS, 100);
}

#[test]
fn first_callback_is_accepted() {
    let mut slot = RendezvousSlot::new();
    let response = handle_token(&mut slot, payload("access_token=abc&state=1"));
    assert_eq!(
        response,
        TokenResponse { success: true, message: "Token received".to_string() }
    );
    assert_eq!(
        slot,
        RendezvousSlot::Completed { fragment: "access_token=abc&state=1".to_string() }
    );
}

#[test]
fn second_callback_is_told_already_received() {
    let mut slot = RendezvousSlot::new();
    let first = handle_token(&mut slot, payload("a=1"));
    let second = handle_token(&mut slot, payload("b=2"));
    assert!(first.success);
    assert_eq!(
        second,
        TokenResponse { success: false, message: "Token already received".to_string() }
    );
    assert_eq!(slot, RendezvousSlot::Completed { fragment: "a=1".to_string() });
}

#[test]
fn two_callbacks_in_either_order_give_one_success() {
    for (first, second) in [("a=1", "b=2"), ("b=2", "a=1")] {
        let mut slot = RendezvousSlot::new();
        let responses =
            [handle_token(&mut slot, payload(first)), handle_token(&mut slot, payload(second))];
        assert_eq!(responses.iter().filter(|response| response.success).count(), 1);
        assert_eq!(
            responses.iter().filter(|r| !r.success && r.message.contains("already received")).count(),
            1
        );
        assert_eq!(slot.take(), Some(first.to_string()));
    }
}

#[test]
fn many_callbacks_give_one_success() {
    let mut slot = RendezvousSlot::new();
    let mut successes = 0;
    for k in 0..10 {
        if handle_token(&mut slot, payload(&format!("k={}", k))).success {
            successes += 1;
        }
    }
    assert_eq!(successes, 1);
    assert_eq!(slot.take(), Some("k=0".to_string()));
}

#[test]
fn the_value_is_collected_once() {
    let mut slot = RendezvousSlot::new();
    assert_eq!(slot.take(), None);
    assert_eq!(slot, RendezvousSlot::Open);
    assert_eq!(slot.complete("x".to_string()), Ok(()));
    assert_eq!(slot.take(), Some("x".to_string()));
    assert_eq!(slot, RendezvousSlot::Collected);
    assert_eq!(slot.take(), None);
    assert_eq!(slot, RendezvousSlot::Collected);
}

#[test]
fn a_collected_slot_accepts_nothing_more() {
    let mut slot = RendezvousSlot::new();
    assert_eq!(slot.complete("x".to_string()), Ok(()));
    assert_eq!(slot.complete("y".to_string()), Err(ServiceError::AlreadyCompleted));
    assert_eq!(slot.take(), Some("x".to_string()));
    assert_eq!(slot.complete("z".to_string()), Err(ServiceError::AlreadyCompleted));
    assert!(!handle_token(&mut slot, payload("w")).success);
    assert_eq!(slot, RendezvousSlot::Collected);
}

#[test]
fn the_fragment_is_passed_on_as_it_is() {
    let fragment = " #weird=%20&\u{1F600}=\n ";
    let mut slot = RendezvousSlot::new();
    assert!(handle_token(&mut slot, payload(fragment)).success);
    assert_eq!(slot.take(), Some(fragment.to_string()));
    let mut slot = RendezvousSlot::new();
    assert!(handle_token(&mut slot, payload("")).success);
    assert_eq!(slot.take(), Some(String::new()));
}

#[test]
fn pending_auth_begins_open() {
    let pending = PendingAuth::new(3, 1_000, 200);
    assert_eq!(
        pending,
        PendingAuth { id: 3, created_at: 1_000, timeout_millis: 200, resolver: RendezvousSlot::Open }
    );
}

#[test]
fn poll_waits_until_the_window_is_over() {
    let mut pending = PendingAuth::new(1, 1_000, 200);
    assert_eq!(pending.poll(1_000), AuthPoll::Waiting { remaining_millis: 200 });
    assert_eq!(pending.poll(1_001), AuthPoll::Waiting { remaining_millis: 199 });
    assert_eq!(pending.poll(1_199), AuthPoll::Waiting { remaining_millis: 1 });
    assert_eq!(pending.poll(1_200), AuthPoll::TimedOut);
    assert_eq!(pending.poll(1_201), AuthPoll::TimedOut);
    assert_eq!(pending.poll(u64::MAX), AuthPoll::TimedOut);
    assert_eq!(pending, PendingAuth::new(1, 1_000, 200));
}

#[test]
fn poll_with_a_clock_that_went_back() {
    let mut pending = PendingAuth::new(1, 1_000, 200);
    assert_eq!(pending.poll(0), AuthPoll::Waiting { remaining_millis: 200 });
    assert_eq!(pending.poll(999), AuthPoll::Waiting { remaining_millis: 200 });
}

#[test]
fn poll_with_an_empty_window_times_out_at_once() {
    let mut pending = PendingAuth::new(1, 1_000, 0);
    assert_eq!(pending.poll(1_000), AuthPoll::TimedOut);
    assert_eq!(pending.poll(0), AuthPoll::TimedOut);
}

#[test]
fn a_callback_wins_over_the_clock() {
    let mut pending = PendingAuth::new(1, 1_000, 200);
    assert!(handle_token(&mut pending.resolver, payload("t=1")).success);
    assert_eq!(pending.poll(9_999_999), AuthPoll::Ready { fragment: "t=1".to_string() });
    assert_eq!(pending.resolver, RendezvousSlot::Collected);
    assert_eq!(pending.poll(9_999_999), AuthPoll::TimedOut);
}

#[test]
fn flow_binds_pauses_opens_and_waits() {
    let url = "https://accounts.example/auth?x=1";
    let (flow, mut pending) = start_oauth_flow(url.to_string(), 7, 5_000);
    assert_eq!(
        pending,
        PendingAuth {
            id: 7,
            created_at: 5_000,
            timeout_millis: 300_000,
            resolver: RendezvousSlot::Open
        }
    );
    assert_eq!(flow.pending(), AuthAction::Bind { port: 8080 });
    let flow = flow.advance(AuthEvent::Bound { error: None }, &mut pending);
    assert_eq!(flow.pending(), AuthAction::Sleep { millis: 100 });
    let flow = flow.advance(AuthEvent::Slept, &mut pending);
    assert_eq!(flow.pending(), AuthAction::OpenBrowser { url: url.to_string() });
    let flow = flow.advance(AuthEvent::BrowserOpened { error: None }, &mut pending);
    assert_eq!(flow.pending(), AuthAction::AwaitCallback { millis: 300_000 });
    assert!(handle_token(&mut pending.resolver, payload("id_token=xyz")).success);
    let flow = flow.advance(AuthEvent::Woken { now: 6_000 }, &mut pending);
    assert_eq!(flow.pending(), AuthAction::Finish);
    assert_eq!(flow.outcome(), Some(Ok("id_token=xyz".to_string())));
}

#[test]
fn google_sign_in_is_the_same_flow() {
    assert_eq!(
        start_google_oauth("https://g".to_string(), 1, 2),
        start_oauth_flow("https://g".to_string(), 1, 2)
    );
}

#[test]
fn flow_without_callback_times_out_after_the_window() {
    let (flow, mut pending) = waiting_flow(1_000);
    let flow = flow.advance(AuthEvent::Woken { now: 1_200 }, &mut pending);
    assert_eq!(flow, AuthFlow::Waiting { millis: 299_800 });
    let flow = flow.advance(AuthEvent::Woken { now: 300_999 }, &mut pending);
    assert_eq!(flow, AuthFlow::Waiting { millis: 1 });
    let flow = flow.advance(AuthEvent::Woken { now: 301_000 }, &mut pending);
    assert_eq!(flow, AuthFlow::Finished { outcome: Err(ServiceError::Timeout) });
    assert_eq!(flow.pending(), AuthAction::Finish);
    assert_eq!(flow.outcome(), Some(Err(ServiceError::Timeout)));
}

#[test]
fn flow_with_a_short_window_times_out_after_it_and_not_before() {
    let (flow, mut pending) =
        start_oauth_flow_within("https://accounts.example/auth".to_string(), 1, 10_000, 200);
    let flow = flow.advance(AuthEvent::Bound { error: None }, &mut pending);
    let flow = flow.advance(AuthEvent::Slept, &mut pending);
    let flow = flow.advance(AuthEvent::BrowserOpened { error: None }, &mut pending);
    assert_eq!(flow.pending(), AuthAction::AwaitCallback { millis: 200 });
    let flow = flow.advance(AuthEvent::Woken { now: 10_100 }, &mut pending);
    assert_eq!(flow.pending(), AuthAction::AwaitCallback { millis: 100 });
    let flow = flow.advance(AuthEvent::Woken { now: 10_199 }, &mut pending);
    assert_eq!(flow.pending(), AuthAction::AwaitCallback { millis: 1 });
    let flow = flow.advance(AuthEvent::Woken { now: 10_200 }, &mut pending);
    assert_eq!(flow.outcome(), Some(Err(ServiceError::Timeout)));
}

#[test]
fn a_late_callback_does_not_change_the_outcome() {
    let (flow, mut pending) = waiting_flow(0);
    let flow = flow.advance(AuthEvent::Woken { now: 300_000 }, &mut pending);
    assert_eq!(flow, AuthFlow::Finished { outcome: Err(ServiceError::Timeout) });
    let late = handle_token(&mut pending.resolver, payload("late=1"));
    assert!(late.success);
    let flow = flow.advance(AuthEvent::Woken { now: 300_001 }, &mut pending);
    assert_eq!(flow, AuthFlow::Finished { outcome: Err(ServiceError::Timeout) });
    let again = handle_token(&mut pending.resolver, payload("later=2"));
    assert!(!again.success);
}

#[test]
fn a_taken_port_ends_the_flow() {
    let (flow, mut pending) = start_oauth_flow("https://x".to_string(), 1, 0);
    let flow = flow.advance(AuthEvent::Bound { error: Some("address in use".to_string()) }, &mut pending);
    assert_eq!(flow.pending(), AuthAction::Finish);
    assert_eq!(
        flow.outcome(),
        Some(Err(ServiceError::PortInUse { port: 8080, reason: "address in use".to_string() }))
    );
}

#[test]
fn a_browser_that_does_not_open_ends_the_flow() {
    let (flow, mut pending) = start_oauth_flow("https://x".to_string(), 1, 0);
    let flow = flow.advance(AuthEvent::Bound { error: None }, &mut pending);
    let flow = flow.advance(AuthEvent::Slept, &mut pending);
    let flow = flow.advance(AuthEvent::BrowserOpened { error: Some("no browser".to_string()) }, &mut pending);
    assert_eq!(
        flow.outcome(),
        Some(Err(ServiceError::ProcessSpawnError {
            process: Process::Browser,
            reason: "no browser".to_string()
        }))
    );
}

#[test]
fn a_closed_channel_ends_the_wait() {
    let (flow, mut pending) = waiting_flow(0);
    let flow = flow.advance(AuthEvent::ChannelClosed, &mut pending);
    assert_eq!(flow.outcome(), Some(Err(ServiceError::ChannelClosed)));
}

#[test]
fn the_flow_ignores_what_it_did_not_ask_for() {
    let (flow, mut pending) = start_oauth_flow("https://x".to_string(), 1, 0);
    let flow = flow.advance(AuthEvent::Slept, &mut pending);
    let flow = flow.advance(AuthEvent::Woken { now: 999_999_999 }, &mut pending);
    let flow = flow.advance(AuthEvent::ChannelClosed, &mut pending);
    let flow = flow.advance(AuthEvent::BrowserOpened { error: None }, &mut pending);
    assert_eq!(flow, AuthFlow::Binding { oauth_url: "https://x".to_string() });
    assert_eq!(flow.outcome(), None);
    let (flow, mut pending) = waiting_flow(0);
    let flow = flow.advance(AuthEvent::Slept, &mut pending);
    let flow = flow.advance(AuthEvent::Bound { error: Some("x".to_string()) }, &mut pending);
    assert_eq!(flow, AuthFlow::Waiting { millis: 300_000 });
}

#[test]
fn listener_routes() {
    assert_eq!(route(Method::Get, "/"), Route::CapturePage);
    assert_eq!(route(Method::Get, "/callback"), Route::CapturePage);
    assert_eq!(route(Method::Post, "/token"), Route::Token);
}

#[test]
fn wrong_methods_and_unknown_paths() {
    assert_eq!(route(Method::Post, "/"), Route::MethodNotAllowed);
    assert_eq!(route(Method::Other, "/callback"), Route::MethodNotAllowed);
    assert_eq!(route(Method::Get, "/token"), Route::MethodNotAllowed);
    assert_eq!(route(Method::Other, "/token"), Route::MethodNotAllowed);
    assert_eq!(route(Method::Get, ""), Route::NotFound);
    assert_eq!(route(Method::Get, "/callback/"), Route::NotFound);
    assert_eq!(route(Method::Post, "/tokens"), Route::NotFound);
    assert_eq!(route(Method::Get, "/Callback"), Route::NotFound);
}
