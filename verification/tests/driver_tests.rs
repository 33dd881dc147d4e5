use revtunnel::driver::{client_next, ClientPhase, ServerAction, ServerDriver, ServerEvent};

#[test]
fn server_awaits_user_first() {
    let driver = ServerDriver::new();
    assert_eq!(driver.next_action(), ServerAction::AwaitUser);
}

#[test]
fn server_pairs_user_with_next_authenticated_tunnel() {
    let mut driver = ServerDriver::new();
    let a = driver.step(ServerEvent::UserArrived);
    assert_eq!(a, ServerAction::AwaitTunnelCandidate);
    let a = driver.step(ServerEvent::TunnelAuthenticated);
    assert_eq!(a, ServerAction::SignalAndSplice);
    // After the pairing the scheduler is back to awaiting the next user.
    assert_eq!(driver.next_action(), ServerAction::AwaitUser);
}

#[test]
fn server_drops_rejected_candidates_silently() {
    let mut driver = ServerDriver::new();
    driver.step(ServerEvent::UserArrived);
    // Candidates that fail authentication never pair and never stop the loop.
    assert_eq!(driver.step(ServerEvent::TunnelRejected), ServerAction::AwaitTunnelCandidate);
    assert_eq!(driver.step(ServerEvent::TunnelRejected), ServerAction::AwaitTunnelCandidate);
    assert_eq!(driver.step(ServerEvent::TunnelAuthenticated), ServerAction::SignalAndSplice);
}

#[test]
fn server_accept_failures_are_local() {
    let mut driver = ServerDriver::new();
    // A failed user accept: keep awaiting users.
    assert_eq!(driver.step(ServerEvent::AcceptFailed), ServerAction::AwaitUser);
    driver.step(ServerEvent::UserArrived);
    // A failed candidate accept: the pending user keeps waiting.
    assert_eq!(driver.step(ServerEvent::AcceptFailed), ServerAction::AwaitTunnelCandidate);
    assert_eq!(driver.step(ServerEvent::TunnelAuthenticated), ServerAction::SignalAndSplice);
}

#[test]
fn server_never_pairs_without_a_user() {
    let mut driver = ServerDriver::new();
    // A tunnel event without a pending user pairs nothing.
    assert_eq!(driver.step(ServerEvent::TunnelAuthenticated), ServerAction::AwaitUser);
    assert_eq!(driver.next_action(), ServerAction::AwaitUser);
}

#[test]
fn client_ladder_advances_on_success() {
    let mut phase = ClientPhase::Dialing;
    phase = client_next(phase, true);
    assert_eq!(phase, ClientPhase::Handshaking);
    phase = client_next(phase, true);
    assert_eq!(phase, ClientPhase::AwaitingSignal);
    phase = client_next(phase, true);
    assert_eq!(phase, ClientPhase::DialingTarget);
    // The splice is fire-and-forget: a completed rung redials at once.
    phase = client_next(phase, true);
    assert_eq!(phase, ClientPhase::Dialing);
}

#[test]
fn client_ladder_retries_from_dialing_on_any_failure() {
    assert_eq!(client_next(ClientPhase::Dialing, false), ClientPhase::Dialing);
    assert_eq!(client_next(ClientPhase::Handshaking, false), ClientPhase::Dialing);
    assert_eq!(client_next(ClientPhase::AwaitingSignal, false), ClientPhase::Dialing);
    assert_eq!(client_next(ClientPhase::DialingTarget, false), ClientPhase::Dialing);
}
