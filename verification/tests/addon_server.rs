use theatre::addon_server::{
    collector_query, encoding_failure, invalid_params_failure, lookup_failure, CollectorQuery,
    activity_entry, classify_read_error, connection_status, poll_step, route_query,
    scene_dimensions_code, take_over_advance, AdvanceState, PollStep, QueryRoute, ReadErrorKind,
    ReadOutcome,
};
use theatre::connection_state::ConnectionState;

#[test]
fn status_follows_handshake_then_listener() {
    assert_eq!(connection_status(true, true), "connected");
    assert_eq!(connection_status(false, true), "waiting");
    assert_eq!(connection_status(false, false), "stopped");
}

#[test]
fn dimensions_code_from_node_kinds() {
    assert_eq!(scene_dimensions_code(true, false), 2);
    assert_eq!(scene_dimensions_code(false, true), 3);
    assert_eq!(scene_dimensions_code(true, true), 0);
    assert_eq!(scene_dimensions_code(false, false), 3);
}

#[test]
fn queries_are_routed_by_method_prefix() {
    assert_eq!(route_query("dashcam_status", true, true), QueryRoute::Recorder);
    assert_eq!(route_query("recording_list", false, true), QueryRoute::Refuse {
        code: "internal_error".into(),
        message: "Recorder not available".into(),
    });
    assert_eq!(route_query("get_scene_tree", false, true), QueryRoute::Collector);
    assert_eq!(route_query("get_scene_tree", true, false), QueryRoute::Refuse {
        code: "scene_not_loaded".into(),
        message: "Collector not available".into(),
    });
}

#[test]
fn read_errors_are_classified() {
    assert_eq!(classify_read_error(ReadErrorKind::WouldBlock), ReadOutcome::Idle);
    assert_eq!(classify_read_error(ReadErrorKind::TimedOut), ReadOutcome::Idle);
    assert_eq!(classify_read_error(ReadErrorKind::ConnectionReset), ReadOutcome::ClientLeft);
    assert_eq!(classify_read_error(ReadErrorKind::Other), ReadOutcome::Failed);
}

#[test]
fn activity_entries_get_defaults() {
    let e = activity_entry(None, None, None, None);
    assert_eq!(e.entry_type, "query");
    assert_eq!(e.summary, "");
    assert_eq!(e.active_watches, -1);
    let e = activity_entry(Some("watch"), Some("s"), Some("t"), Some(3));
    assert_eq!(e.tool_name, "t");
    assert_eq!(e.active_watches, 3);
}

#[test]
fn poll_answers_a_finished_advance_first() {
    let mut conn = ConnectionState::default();
    conn.on_client_connected();
    conn.on_handshake_ack();
    assert!(conn.begin_advance(2, "adv".into()));
    assert_eq!(poll_step(&mut conn, 5, true), PollStep::Wait);
    assert_eq!(
        poll_step(&mut conn, 6, true),
        PollStep::AnswerAdvance { response_id: "adv".into(), frame: 6 }
    );
    assert_eq!(poll_step(&mut conn, 7, true), PollStep::Read);
    assert_eq!(poll_step(&mut conn, 8, false), PollStep::Accept);
}

#[test]
fn server_takes_over_a_requested_advance() {
    let mut conn = ConnectionState::default();
    let mut state = AdvanceState { remaining: 3, pending_id: Some("q7".to_string()) };
    take_over_advance(&mut state, &mut conn);
    assert_eq!(state.remaining, 0);
    assert_eq!(state.pending_id, None);
    assert_eq!(conn.advance_remaining, 3);
    assert_eq!(conn.advance_request_id.as_deref(), Some("q7"));

    // Nothing requested: nothing changes.
    let mut idle = AdvanceState::default();
    let mut conn2 = ConnectionState::default();
    take_over_advance(&mut idle, &mut conn2);
    assert_eq!(conn2.advance_remaining, 0);
    assert_eq!(conn2.advance_request_id, None);

    // A request without an id is handed over with an empty one.
    let mut anonymous = AdvanceState { remaining: 1, pending_id: None };
    let mut conn3 = ConnectionState::default();
    take_over_advance(&mut anonymous, &mut conn3);
    assert_eq!(conn3.advance_request_id.as_deref(), Some(""));
}

#[test]
fn collector_queries_by_method_name() {
    assert_eq!(collector_query("get_snapshot_data"), Ok(CollectorQuery::SnapshotData));
    assert_eq!(collector_query("get_frame_info"), Ok(CollectorQuery::FrameInfo));
    assert_eq!(collector_query("get_node_inspect"), Ok(CollectorQuery::NodeInspect));
    assert_eq!(collector_query("get_scene_tree"), Ok(CollectorQuery::SceneTree));
    let refused = collector_query("spatial_query").unwrap_err();
    assert_eq!(refused.code, "method_not_found");
    assert_eq!(refused.message, "Unknown query method: spatial_query");
}

#[test]
fn query_failures_carry_code_and_words() {
    let f = invalid_params_failure("missing field `path`");
    assert_eq!(f.code, "invalid_params");
    assert_eq!(f.message, "Invalid params: missing field `path`");
    let g = lookup_failure("Node 'Gun' not found".to_string());
    assert_eq!(g.code, "node_not_found");
    assert_eq!(g.message, "Node 'Gun' not found");
    let h = encoding_failure("key must be a string");
    assert_eq!(h.code, "internal");
    assert_eq!(h.message, "Serialization error: key must be a string");
}
