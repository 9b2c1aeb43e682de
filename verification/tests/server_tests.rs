//! Server-side configuration, handshake verdicts, the connected-clients
//! registry, and the session state machine.

use schengen::server::{Builder, ClientBuilder, HandshakeState, HandshakeVerdict, Position,
    RejectReason, ServerRegistry, Session, SessionState, handshake_verdict};

#[test]
fn test_server_rejects_duplicate_positions() {
    let client1 = ClientBuilder::new("client1").position(Position::Left).build();
    let client2 = ClientBuilder::new("client2").position(Position::Left).build();
    let result = Builder::new().add_client(client1).unwrap().add_client(client2);
    assert!(result.is_err(), "Should reject duplicate positions");
}

#[test]
fn test_server_accepts_different_positions() {
    let laptop = ClientBuilder::new("laptop").position(Position::Left).build();
    let desktop = ClientBuilder::new("desktop").position(Position::Right).build();
    let tablet = ClientBuilder::new("tablet").position(Position::Above).build();
    let phone = ClientBuilder::new("phone").position(Position::Below).build();
    let result = Builder::new()
        .add_client(laptop)
        .unwrap()
        .add_client(desktop)
        .unwrap()
        .add_client(tablet)
        .unwrap()
        .add_client(phone);
    assert!(result.is_ok(), "Should accept clients at different positions");
}

#[test]
fn test_server_relative_positioning() {
    let laptop = ClientBuilder::new("laptop").position(Position::Left).build();
    let monitor = ClientBuilder::new("monitor")
        .position(Position::Below)
        .relative_to(&laptop)
        .build();
    let result = Builder::new().add_client(laptop).unwrap().add_client(monitor);
    assert!(result.is_ok(), "Should accept relative positioning");
}

#[test]
fn test_server_rejects_relative_to_nonexistent_client() {
    let laptop = ClientBuilder::new("laptop").position(Position::Left).build();
    let phantom = ClientBuilder::new("phantom").position(Position::Right).build();
    let monitor = ClientBuilder::new("monitor")
        .position(Position::Below)
        .relative_to(&phantom)
        .build();
    let result = Builder::new().add_client(laptop).unwrap().add_client(monitor);
    assert!(result.is_err(), "Should reject reference to non-added client");
}

#[test]
fn test_server_rejects_duplicate_relative_positions() {
    let laptop = ClientBuilder::new("laptop").position(Position::Left).build();
    let monitor1 = ClientBuilder::new("monitor1")
        .position(Position::Below)
        .relative_to(&laptop)
        .build();
    let monitor2 = ClientBuilder::new("monitor2")
        .position(Position::Below)
        .relative_to(&laptop)
        .build();
    let result = Builder::new()
        .add_client(laptop)
        .unwrap()
        .add_client(monitor1)
        .unwrap()
        .add_client(monitor2);
    assert!(result.is_err(), "Should reject duplicate relative positions");
}

#[test]
fn test_registry_starts_empty_and_snapshots() {
    let registry = ServerRegistry::new();
    assert_eq!(registry.len(), 0, "No clients should be connected yet");
    assert_eq!(registry.clients().len(), 0);
}

#[test]
fn test_registry_insert_contains_remove() {
    let mut registry = ServerRegistry::new();
    assert!(registry.insert("laptop".to_string()));
    assert!(registry.insert("desktop".to_string()));
    assert!(!registry.insert("laptop".to_string()), "names stay unique");
    assert!(registry.contains(&"laptop".to_string()));
    assert_eq!(registry.len(), 2);
    let snapshot = registry.clients();
    assert_eq!(snapshot, vec!["laptop".to_string(), "desktop".to_string()]);

    assert!(registry.remove(&"laptop".to_string()));
    assert!(!registry.remove(&"laptop".to_string()));
    assert!(!registry.contains(&"laptop".to_string()));
    assert_eq!(registry.len(), 1);
}

fn configured_server() -> Builder {
    let laptop = ClientBuilder::new("laptop").position(Position::Left).build();
    Builder::new().add_client(laptop).unwrap()
}

#[test]
fn test_handshake_accepts_configured_client() {
    let server = configured_server();
    let registry = ServerRegistry::new();
    let verdict = handshake_verdict(
        server.topology(),
        &registry,
        1,
        1,
        6,
        &Some("laptop".to_string()),
    );
    assert_eq!(verdict, HandshakeVerdict::Accept("laptop".to_string()));
}

#[test]
fn test_handshake_rejects_unknown_client() {
    let server = configured_server();
    let registry = ServerRegistry::new();
    let verdict = handshake_verdict(
        server.topology(),
        &registry,
        1,
        1,
        6,
        &Some("stranger".to_string()),
    );
    assert_eq!(verdict, HandshakeVerdict::Reject(RejectReason::UnknownClient));
}

#[test]
fn test_handshake_rejects_busy_slot() {
    let server = configured_server();
    let mut registry = ServerRegistry::new();
    registry.insert("laptop".to_string());
    let verdict = handshake_verdict(
        server.topology(),
        &registry,
        1,
        1,
        6,
        &Some("laptop".to_string()),
    );
    assert_eq!(verdict, HandshakeVerdict::Reject(RejectReason::ServerBusy));
}

#[test]
fn test_handshake_rejects_incompatible_version() {
    // The peer's own advertised version is echoed back in the error.
    let server = configured_server();
    let registry = ServerRegistry::new();
    let verdict = handshake_verdict(
        server.topology(),
        &registry,
        1,
        2,
        0,
        &Some("laptop".to_string()),
    );
    assert_eq!(
        verdict,
        HandshakeVerdict::Reject(RejectReason::IncompatibleVersion(2, 0))
    );
}

#[test]
fn test_handshake_rejects_nameless_reply() {
    let server = configured_server();
    let registry = ServerRegistry::new();
    let verdict = handshake_verdict(server.topology(), &registry, 1, 1, 6, &None);
    assert_eq!(verdict, HandshakeVerdict::Reject(RejectReason::ProtocolViolation));
}

#[test]
fn test_session_keepalive_and_liveness() {
    let mut session = Session::new(1000);
    assert_eq!(session.state(), SessionState::Active);
    assert!(!session.keepalive_due(1500, 1000));
    assert!(session.keepalive_due(2000, 1000));
    session.record_keepalive_sent(2000);
    assert!(!session.keepalive_due(2500, 1000));

    // Heard from recently: still alive.
    session.record_heard(2000);
    assert!(session.check_liveness(4000, 3000));
    assert_eq!(session.state(), SessionState::Active);
    // Silent beyond the threshold: treated as dead.
    assert!(!session.check_liveness(5001, 3000));
    assert_eq!(session.state(), SessionState::Closing);
}

#[test]
fn test_session_close_transitions() {
    let mut session = Session::new(0);
    session.begin_close();
    assert_eq!(session.state(), SessionState::Closing);
    session.finish_close();
    assert_eq!(session.state(), SessionState::Closed);
    session.begin_close();
    assert_eq!(session.state(), SessionState::Closed, "closed stays closed");
}

#[test]
fn test_session_clipboard_sequence_echo() {
    let mut session = Session::new(0);
    session.on_cursor_entered(42);
    assert!(session.clipboard_in_order(42));
    assert!(!session.clipboard_in_order(41), "stale sequence is dropped");
    session.on_cursor_entered(43);
    assert!(!session.clipboard_in_order(42));
    assert!(session.clipboard_in_order(43));
}

#[test]
fn test_session_stream_marks() {
    let mut session = Session::new(0);
    assert!(session.on_stream_mark(1), "start opens a stream");
    assert!(session.on_stream_mark(2), "middle continues it");
    assert!(session.on_stream_mark(3), "end closes it");
    assert!(!session.on_stream_mark(2), "middle without a stream is an anomaly");
    assert!(session.on_stream_mark(1));
    assert!(!session.on_stream_mark(1), "a second start before an end is an anomaly");
    assert!(session.on_stream_mark(3));
}

#[test]
fn test_session_option_overlay() {
    let mut session = Session::new(0);
    session.apply_option(0x48415254, 3000);
    session.apply_option(0xDEADBEEF, 1);
    assert_eq!(session.options(), &vec![(0x48415254, 3000), (0xDEADBEEF, 1)]);
    // Overwriting keeps insertion order.
    session.apply_option(0x48415254, 5000);
    assert_eq!(session.options(), &vec![(0x48415254, 5000), (0xDEADBEEF, 1)]);
    session.reset_options();
    assert_eq!(session.options().len(), 0);
}

#[test]
fn test_handshake_state_transitions() {
    let state = HandshakeState::AwaitingGreeting;
    let state = state.greeting_sent();
    assert_eq!(state, HandshakeState::AwaitingReply);
    let accepted = state.after_verdict(&HandshakeVerdict::Accept("laptop".to_string()));
    assert_eq!(accepted, HandshakeState::Established);
    let rejected = state.after_verdict(&HandshakeVerdict::Reject(RejectReason::ServerBusy));
    assert_eq!(rejected, HandshakeState::Rejected(RejectReason::ServerBusy));
    // Terminal states stay put.
    assert_eq!(accepted.greeting_sent(), HandshakeState::Established);
    assert_eq!(
        rejected.after_verdict(&HandshakeVerdict::Accept("x".to_string())),
        HandshakeState::Rejected(RejectReason::ServerBusy)
    );
}
