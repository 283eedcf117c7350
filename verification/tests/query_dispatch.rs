use theatre::query_dispatch::ParamsShape;
use theatre::query_dispatch::QueryMethod;

#[test]
fn all_known_methods_resolve() {
    let cases = [
        ("get_snapshot_data", QueryMethod::GetSnapshotData),
        ("get_frame_info", QueryMethod::GetFrameInfo),
        ("get_node_inspect", QueryMethod::GetNodeInspect),
        ("get_scene_tree", QueryMethod::GetSceneTree),
        ("execute_action", QueryMethod::ExecuteAction),
        ("spatial_query", QueryMethod::SpatialQuery),
        ("recording_marker", QueryMethod::RecordingMarker),
        ("recording_markers", QueryMethod::RecordingMarkers),
        ("recording_list", QueryMethod::RecordingList),
        ("recording_delete", QueryMethod::RecordingDelete),
        ("recording_resolve_path", QueryMethod::RecordingResolvePath),
        ("dashcam_status", QueryMethod::DashcamStatus),
        ("dashcam_flush", QueryMethod::DashcamFlush),
        ("dashcam_config", QueryMethod::DashcamConfig),
    ];
    for (name, expected) in cases {
        assert_eq!(
            QueryMethod::parse(name),
            Some(expected),
            "failed for {name}"
        );
    }
}

#[test]
fn unknown_method_returns_none() {
    assert_eq!(QueryMethod::parse("bogus"), None);
    assert_eq!(QueryMethod::parse("get_snapshot"), None);
    assert_eq!(QueryMethod::parse(""), None);
}

#[test]
fn as_str_round_trips() {
    let methods = [
        QueryMethod::GetSnapshotData,
        QueryMethod::GetFrameInfo,
        QueryMethod::GetNodeInspect,
        QueryMethod::GetSceneTree,
        QueryMethod::ExecuteAction,
        QueryMethod::SpatialQuery,
        QueryMethod::RecordingMarker,
        QueryMethod::RecordingMarkers,
        QueryMethod::RecordingList,
        QueryMethod::RecordingDelete,
        QueryMethod::RecordingResolvePath,
        QueryMethod::DashcamStatus,
        QueryMethod::DashcamFlush,
        QueryMethod::DashcamConfig,
    ];
    for method in methods {
        let name = method.as_str();
        assert_eq!(
            QueryMethod::parse(name),
            Some(method),
            "round-trip failed for {name}"
        );
    }
}

#[test]
fn clip_methods_are_flagged_correctly() {
    assert!(QueryMethod::RecordingMarker.is_clip_method());
    assert!(QueryMethod::RecordingMarkers.is_clip_method());
    assert!(QueryMethod::RecordingList.is_clip_method());
    assert!(QueryMethod::RecordingDelete.is_clip_method());
    assert!(QueryMethod::RecordingResolvePath.is_clip_method());
    assert!(QueryMethod::DashcamStatus.is_clip_method());
    assert!(QueryMethod::DashcamFlush.is_clip_method());
    assert!(QueryMethod::DashcamConfig.is_clip_method());
}

#[test]
fn spatial_methods_are_not_clip_methods() {
    assert!(!QueryMethod::GetSnapshotData.is_clip_method());
    assert!(!QueryMethod::ExecuteAction.is_clip_method());
    assert!(!QueryMethod::SpatialQuery.is_clip_method());
}

#[test]
fn recording_start_is_unknown_method() {
    assert_eq!(QueryMethod::parse("recording_start"), None);
    assert_eq!(QueryMethod::parse("recording_stop"), None);
    assert_eq!(QueryMethod::parse("recording_status"), None);
}

/// The shape of JSON parameters as the clip methods see it.
fn shape_of(text: &str) -> ParamsShape {
    let v: serde_json::Value = serde_json::from_str(text).unwrap();
    if v.is_object() {
        ParamsShape::Object
    } else if v.is_null() {
        ParamsShape::Null
    } else {
        ParamsShape::Other
    }
}

#[test]
fn recording_marker_accepts_object() {
    let params = shape_of(r#"{"source": "agent", "label": "checkpoint"}"#);
    assert!(QueryMethod::RecordingMarker.validate_params(params, Ok(())).is_ok());
}

#[test]
fn recording_marker_rejects_non_object() {
    assert!(QueryMethod::RecordingMarker.validate_params(shape_of(r#""bad""#), Ok(())).is_err());
}

#[test]
fn dashcam_methods_accept_empty_params() {
    assert!(QueryMethod::DashcamStatus.validate_params(shape_of("{}"), Ok(())).is_ok());
    assert!(QueryMethod::DashcamFlush.validate_params(shape_of("{}"), Ok(())).is_ok());
    assert!(QueryMethod::DashcamConfig.validate_params(shape_of("{}"), Ok(())).is_ok());
}

#[test]
fn clip_listing_methods_take_object_or_null() {
    assert_eq!(QueryMethod::RecordingList.validate_params(shape_of("null"), Ok(())), Ok(()));
    assert_eq!(QueryMethod::RecordingDelete.validate_params(shape_of("{}"), Ok(())), Ok(()));
    assert_eq!(
        QueryMethod::RecordingMarkers.validate_params(shape_of("[1, 2]"), Ok(())),
        Err("recording_markers params must be an object or null".to_string())
    );
    assert_eq!(
        QueryMethod::RecordingMarker.validate_params(shape_of("null"), Ok(())),
        Err("recording_marker params must be an object".to_string())
    );
    assert_eq!(QueryMethod::DashcamConfig.validate_params(shape_of("7"), Ok(())), Ok(()));
}

#[test]
fn typed_methods_keep_the_decoding_verdict() {
    let failed: Result<(), String> = Err("unknown variant `nonexistent`".to_string());
    assert_eq!(
        QueryMethod::GetSnapshotData.validate_params(ParamsShape::Object, failed.clone()),
        failed
    );
    assert_eq!(QueryMethod::GetFrameInfo.validate_params(ParamsShape::Object, Ok(())), Ok(()));
    // A clip method ignores the decoding verdict.
    assert_eq!(QueryMethod::DashcamStatus.validate_params(ParamsShape::Object, failed), Ok(()));
}
