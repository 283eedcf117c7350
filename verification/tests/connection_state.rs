use theatre::connection_state::{ConnectionAction, ConnectionState};

#[test]
fn initial_state_is_disconnected() {
    let state = ConnectionState::default();
    assert!(!state.connected);
    assert!(!state.handshake_completed);
    assert!(!state.is_advancing());
    assert!(!state.is_ready());
}

#[test]
fn connection_lifecycle() {
    let mut state = ConnectionState::default();
    state.on_client_connected();
    assert!(state.connected);
    assert!(!state.handshake_completed);
    assert!(!state.is_ready());

    state.on_handshake_ack();
    assert!(state.handshake_completed);
    assert!(state.is_ready());

    state.on_disconnect();
    assert!(!state.connected);
    assert!(!state.is_ready());
}

#[test]
fn advance_frames_lifecycle() {
    let mut state = ConnectionState::default();
    state.on_client_connected();
    state.on_handshake_ack();

    assert!(state.begin_advance(3, "req-1".into()));
    assert!(state.is_advancing());
    assert!(!state.is_ready());

    // Can't start another advance while one is in progress
    assert!(!state.begin_advance(5, "req-2".into()));

    // Tick down
    assert!(matches!(state.tick_advance(0), ConnectionAction::Nothing));
    assert_eq!(state.advance_remaining, 2);

    assert!(matches!(state.tick_advance(0), ConnectionAction::Nothing));
    assert_eq!(state.advance_remaining, 1);

    // Final tick completes
    match state.tick_advance(42) {
        ConnectionAction::AdvanceComplete { response_id, frame } => {
            assert_eq!(response_id, "req-1");
            assert_eq!(frame, 42);
        }
        other => panic!("Expected AdvanceComplete, got {:?}", other),
    }

    assert!(!state.is_advancing());
    assert!(state.is_ready());
}

#[test]
fn advance_single_frame() {
    let mut state = ConnectionState::default();
    state.on_client_connected();
    state.on_handshake_ack();

    assert!(state.begin_advance(1, "req-single".into()));
    assert!(state.is_advancing());

    match state.tick_advance(10) {
        ConnectionAction::AdvanceComplete { response_id, frame } => {
            assert_eq!(response_id, "req-single");
            assert_eq!(frame, 10);
        }
        other => panic!("Expected AdvanceComplete, got {:?}", other),
    }
    assert!(!state.is_advancing());
}

#[test]
fn disconnect_during_advance_clears_state() {
    let mut state = ConnectionState::default();
    state.on_client_connected();
    state.on_handshake_ack();
    state.begin_advance(10, "req-1".into());

    state.on_disconnect();
    assert!(!state.is_advancing());
    assert_eq!(state.advance_remaining, 0);
    assert!(state.advance_request_id.is_none());
}

#[test]
fn tick_when_not_advancing_is_noop() {
    let mut state = ConnectionState::default();
    state.on_client_connected();
    state.on_handshake_ack();

    // No advance in progress
    assert!(matches!(state.tick_advance(5), ConnectionAction::Nothing));
    assert!(state.is_ready());
}

#[test]
fn begin_advance_zero_frames_completes_immediately() {
    let mut state = ConnectionState::default();
    state.on_client_connected();
    state.on_handshake_ack();

    // Zero frames: begin_advance sets remaining=0, immediately not advancing
    assert!(state.begin_advance(0, "req-zero".into()));
    // remaining is 0 so is_advancing() is false, but request_id is set
    assert!(!state.is_advancing());
}

#[test]
fn reconnect_after_disconnect_resets_state() {
    let mut state = ConnectionState::default();
    state.on_client_connected();
    state.on_handshake_ack();
    state.begin_advance(5, "old-req".into());
    state.on_disconnect();

    // Reconnect
    state.on_client_connected();
    assert!(!state.handshake_completed);
    assert!(!state.is_advancing());

    state.on_handshake_ack();
    assert!(state.is_ready());

    // New advance works
    assert!(state.begin_advance(2, "new-req".into()));
}

#[test]
fn advance_of_n_frames_completes_on_the_nth_tick() {
    let mut state = ConnectionState::default();
    state.on_client_connected();
    state.on_handshake_ack();
    assert!(state.begin_advance(4, "req-n".into()));
    for _ in 0..3 {
        assert!(matches!(state.tick_advance(7), ConnectionAction::Nothing));
    }
    assert!(matches!(
        state.tick_advance(9),
        ConnectionAction::AdvanceComplete { frame: 9, .. }
    ));
}
