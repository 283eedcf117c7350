use theatre::recording_queries::{
    config_outcome, dashcam_running, delete_outcome, flush_outcome, plan_marker, plan_start,
    recording_method, require_recording, required_recording_id, start_outcome,
    storage_path_or_default, RecordingMethod, StartPlan,
};

#[test]
fn recording_methods_are_routed() {
    assert_eq!(recording_method("recording_marker"), Ok(RecordingMethod::Marker));
    assert_eq!(recording_method("dashcam_flush"), Ok(RecordingMethod::DashcamFlush));
    let e = recording_method("recording_bogus").unwrap_err();
    assert_eq!(e.code, "method_not_found");
    assert_eq!(e.message, "Unknown recording method: recording_bogus");
}

#[test]
fn marker_goes_to_recording_or_dashcam() {
    let e = plan_marker(false, "disabled", None, None).unwrap_err();
    assert_eq!(e.code, "no_recording_active");
    let p = plan_marker(true, "buffering", Some("system"), Some("x")).unwrap();
    assert!(p.add_to_recording);
    assert_eq!(p.dashcam_tier, None);
    let p = plan_marker(false, "buffering", None, None).unwrap();
    assert_eq!(p.source, "agent");
    assert_eq!(p.dashcam_tier.as_deref(), Some("deliberate"));
    let p = plan_marker(false, "post_capture", Some("physics"), Some("hit")).unwrap();
    assert_eq!(p.dashcam_tier.as_deref(), Some("system"));
    assert_eq!(p.label, "hit");
}

#[test]
fn query_parameter_defaults_and_errors() {
    assert_eq!(storage_path_or_default(None), "user://spectator_recordings/");
    assert_eq!(storage_path_or_default(Some("/tmp/r")), "/tmp/r");
    assert_eq!(required_recording_id(Some("clip_1")), Ok("clip_1".to_string()));
    assert_eq!(required_recording_id(None).unwrap_err().message, "recording_id is required");
    assert_eq!(delete_outcome(false, "clip_9").unwrap_err().message, "Recording 'clip_9' not found");
    assert!(delete_outcome(true, "clip_9").is_ok());
    assert!(flush_outcome("").is_err());
    assert!(flush_outcome("clip_2").is_ok());
    assert!(dashcam_running(false, "post_capture"));
    assert!(!dashcam_running(false, "disabled"));
}

#[test]
fn start_takes_defaults_and_refuses_a_second_recording() {
    let plan = plan_start(false, None, None, None, None).unwrap();
    assert_eq!(
        plan,
        StartPlan {
            name: String::new(),
            storage_path: "user://spectator_recordings/".to_string(),
            capture_interval: 1,
            max_frames: 36000,
        }
    );
    let named = plan_start(false, Some("boss"), Some("/tmp/clips"), Some(2), Some(600)).unwrap();
    assert_eq!(named.name, "boss");
    assert_eq!(named.storage_path, "/tmp/clips");
    assert_eq!(named.capture_interval, 2);
    assert_eq!(named.max_frames, 600);
    // Numbers beyond 32 bits keep their low 32 bits.
    assert_eq!(plan_start(false, None, None, Some((1u64 << 32) + 5), None).unwrap().capture_interval, 5);
    let refused = plan_start(true, None, None, None, None).unwrap_err();
    assert_eq!(refused.code, "recording_active");
    assert_eq!(refused.message, "A recording is already active");
}

#[test]
fn start_stop_and_config_outcomes() {
    assert!(start_outcome("rec_1").is_ok());
    let failed = start_outcome("").unwrap_err();
    assert_eq!((failed.code.as_str(), failed.message.as_str()), ("internal_error", "Failed to start recording"));
    assert!(require_recording(true).is_ok());
    let idle = require_recording(false).unwrap_err();
    assert_eq!((idle.code.as_str(), idle.message.as_str()), ("no_recording_active", "No recording is active"));
    assert!(config_outcome(true).is_ok());
    let bad = config_outcome(false).unwrap_err();
    assert_eq!((bad.code.as_str(), bad.message.as_str()), ("invalid_params", "Failed to apply dashcam config"));
}
