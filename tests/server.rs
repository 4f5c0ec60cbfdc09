use dmtrctl::server::{ServerAction, ServerEvent, ServerPhase, TunnelError, TunnelServer};

fn listening() -> TunnelServer {
    let mut s = TunnelServer::new();
    assert_eq!(s.step(ServerEvent::PathChecked(false)), ServerAction::Bind);
    assert_eq!(s.step(ServerEvent::Bound(true)), ServerAction::Accept);
    assert_eq!(s.phase(), ServerPhase::Listening);
    s
}

#[test]
fn existing_path_fails_before_bind() {
    let mut s = TunnelServer::new();
    assert_eq!(
        s.step(ServerEvent::PathChecked(true)),
        ServerAction::Finish(Err(TunnelError::PathAlreadyExists))
    );
    assert_eq!(s.phase(), ServerPhase::Terminated);
    assert_eq!(s.step(ServerEvent::Bound(true)), ServerAction::Ignore);
    assert_eq!(s.step(ServerEvent::Accepted(true)), ServerAction::Ignore);
}

#[test]
fn bind_failure_is_fatal() {
    let mut s = TunnelServer::new();
    assert_eq!(s.step(ServerEvent::PathChecked(false)), ServerAction::Bind);
    assert_eq!(
        s.step(ServerEvent::Bound(false)),
        ServerAction::Finish(Err(TunnelError::BindFailed))
    );
    assert_eq!(s.phase(), ServerPhase::Terminated);
}

#[test]
fn dial_failure_keeps_listening() {
    let mut s = listening();
    assert_eq!(s.step(ServerEvent::Accepted(true)), ServerAction::Dial);
    assert_eq!(s.step(ServerEvent::Dialed(false)), ServerAction::Discard);
    assert_eq!(s.phase(), ServerPhase::Listening);
    assert_eq!(s.step(ServerEvent::Accepted(true)), ServerAction::Dial);
    assert_eq!(s.step(ServerEvent::Dialed(true)), ServerAction::Spawn);
}

#[test]
fn cancel_with_three_relays_stops_accepting() {
    let mut s = listening();
    for _ in 0..3 {
        assert_eq!(s.step(ServerEvent::Accepted(true)), ServerAction::Dial);
        assert_eq!(s.step(ServerEvent::Dialed(true)), ServerAction::Spawn);
    }
    assert_eq!(s.step(ServerEvent::Cancelled), ServerAction::RemoveSocket);
    assert_eq!(s.phase(), ServerPhase::Draining);
    assert_eq!(s.step(ServerEvent::Accepted(true)), ServerAction::Ignore);
    assert_eq!(s.step(ServerEvent::Removed(true)), ServerAction::Finish(Ok(())));
    assert_eq!(s.phase(), ServerPhase::Terminated);
    assert!(!s.removal_failed());
    assert_eq!(s.step(ServerEvent::Accepted(true)), ServerAction::Ignore);
}

#[test]
fn removal_failure_is_reported_only() {
    let mut s = listening();
    assert_eq!(s.step(ServerEvent::Cancelled), ServerAction::RemoveSocket);
    assert_eq!(s.step(ServerEvent::Removed(false)), ServerAction::Finish(Ok(())));
    assert!(s.removal_failed());
}

#[test]
fn accept_failure_ends_run() {
    let mut s = listening();
    assert_eq!(s.step(ServerEvent::Accepted(false)), ServerAction::RemoveSocket);
    assert_eq!(
        s.step(ServerEvent::Removed(true)),
        ServerAction::Finish(Err(TunnelError::AcceptFailed))
    );
}

#[test]
fn cancel_while_dialing() {
    let mut s = listening();
    assert_eq!(s.step(ServerEvent::Accepted(true)), ServerAction::Dial);
    assert_eq!(s.step(ServerEvent::Cancelled), ServerAction::RemoveSocket);
    assert_eq!(s.step(ServerEvent::Dialed(true)), ServerAction::Ignore);
}
