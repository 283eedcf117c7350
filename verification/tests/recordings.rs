use theatre::recordings::{
    clip_file_path, clip_id, dashcam_clip_name, is_recording_file, summarize_recording, RecordingRow,
};

fn row(config: Option<&str>) -> RecordingRow {
    RecordingRow {
        id: "clip_abc12345".into(),
        name: "dashcam_1000".into(),
        started_at_frame: 400,
        ended_at_frame: Some(500),
        started_at_ms: 6666,
        ended_at_ms: Some(8333),
        capture_config: config.map(String::from),
    }
}

#[test]
fn dashcam_clip_metadata_is_summarised() {
    let s = summarize_recording(
        row(Some(r#"{"capture_interval":1,"dashcam":true,"tier":"system"}"#)),
        101,
        1,
        Some(4096),
    );
    assert_eq!(s.clip_id, "clip_abc12345");
    assert_eq!(s.frames_captured, 101);
    assert_eq!(s.duration_ms, 8333 - 6666);
    assert_eq!(s.frame_range_end, 500);
    assert_eq!(s.size_kb, 4);
    assert!(s.dashcam);
    assert_eq!(s.dashcam_tier, "system");
}

#[test]
fn plain_recording_has_no_tier() {
    let mut r = row(Some(r#"{"dashcam":false,"tier":"system"}"#));
    r.ended_at_ms = None;
    r.ended_at_frame = None;
    let s = summarize_recording(r, 0, 0, None);
    assert!(!s.dashcam);
    assert_eq!(s.dashcam_tier, "");
    assert_eq!(s.duration_ms, 0);
    assert_eq!(s.frame_range_end, 400);
    assert_eq!(s.size_kb, 0);
    let s = summarize_recording(row(Some("not json")), 0, 0, None);
    assert!(!s.dashcam);
}

#[test]
fn only_sqlite_files_are_recordings() {
    assert!(is_recording_file(Some("sqlite")));
    assert!(!is_recording_file(Some("db")));
    assert!(!is_recording_file(None));
}

#[test]
fn clip_file_sits_in_the_storage_directory() {
    assert_eq!(
        clip_file_path("/home/me/game/.spectator/recordings", "dashcam_1234"),
        "/home/me/game/.spectator/recordings/dashcam_1234.sqlite"
    );
}

#[test]
fn dashcam_clip_ids_and_names() {
    assert_eq!(clip_id(0x1234_abcd), "clip_1234abcd");
    assert_eq!(clip_id(5), "clip_00000005");
    assert_eq!(clip_id(u32::MAX), "clip_ffffffff");
    assert_eq!(dashcam_clip_name(1_700_000_000), "dashcam_1700000000");
    assert_eq!(dashcam_clip_name(0), "dashcam_0");
}
