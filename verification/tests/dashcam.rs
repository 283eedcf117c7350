use theatre::dashcam::{
    post_window_frames, ring_cap_frames, CapturedFrame, Dashcam, DashcamConfig, DashcamConfigUpdate,
    DashcamTier,
};

fn frame(n: u64, bytes: usize) -> CapturedFrame {
    CapturedFrame { frame: n, timestamp_ms: n * 16, data: vec![0u8; bytes] }
}

fn no_update() -> DashcamConfigUpdate {
    DashcamConfigUpdate {
        enabled: None,
        capture_interval: None,
        pre_window_system_sec: None,
        pre_window_deliberate_sec: None,
        post_window_system_sec: None,
        post_window_deliberate_sec: None,
        max_window_sec: None,
        min_after_sec: None,
        system_min_interval_sec: None,
        byte_cap_mb: None,
    }
}

#[test]
fn dashcam_config_defaults() {
    let cfg = DashcamConfig::default();
    assert!(cfg.enabled);
    assert_eq!(cfg.pre_window_system_sec, 30);
    assert_eq!(cfg.pre_window_deliberate_sec, 60);
    assert_eq!(cfg.post_window_system_sec, 10);
    assert_eq!(cfg.post_window_deliberate_sec, 30);
    assert_eq!(cfg.max_window_sec, 120);
    assert_eq!(cfg.min_after_sec, 5);
    assert_eq!(cfg.system_min_interval_sec, 2);
    assert_eq!(cfg.byte_cap_mb, 1024);
}

#[test]
fn dashcam_tier_str() {
    assert_eq!(DashcamTier::System.as_str(), "system");
    assert_eq!(DashcamTier::Deliberate.as_str(), "deliberate");
}

#[test]
fn ring_buffer_eviction_at_byte_cap() {
    // A 1 MB byte cap with 64 KiB frames: at most 16 frames fit, and the
    // ring keeps the most recent ones.
    let mut d = Dashcam::new();
    let mut upd = no_update();
    upd.byte_cap_mb = Some(1);
    d.apply_config(&upd);
    d.ready(60);
    for i in 0u64..100 {
        assert!(d.ingest(frame(i, 65536)).is_none());
    }
    assert_eq!(d.get_dashcam_buffer_frames(), 16);
    assert!(d.get_dashcam_buffer_kb() <= 1024);
    let plan = d.flush_dashcam_clip("check", 100, 1600).expect("ring snapshot");
    assert_eq!(plan.last_frame, 99);
    assert_eq!(plan.first_frame, 84);
}

#[test]
fn dashcam_merge_system_plus_system_extends_window() {
    let mut d = Dashcam::new();
    d.ready(60);
    for i in 0u64..5 {
        d.ingest(frame(i, 16));
    }
    assert_eq!(d.on_dashcam_marker("system", "first", 100, 1000), Some((100, DashcamTier::System)));
    assert_eq!(d.get_dashcam_state(), "post_capture");
    // Far enough from the last system trigger: merges into the open clip.
    assert_eq!(d.on_dashcam_marker("system", "second", 300, 3000), None);
    assert_eq!(d.get_dashcam_state(), "post_capture");
    // The system post-window is 10 s at 60 fps: 600 frames after the merge.
    let mut closed = None;
    for i in 0u64..600 {
        let r = d.ingest(frame(1000 + i, 16));
        if r.is_some() {
            closed = Some((i, r.unwrap()));
            break;
        }
    }
    let (at, plan) = closed.expect("clip closes");
    assert_eq!(at, 599);
    assert_eq!(plan.tier, DashcamTier::System);
    assert_eq!(plan.markers.len(), 2);
    assert_eq!(d.get_dashcam_state(), "buffering");
}

#[test]
fn dashcam_merge_deliberate_upgrades_system_clip() {
    let mut d = Dashcam::new();
    d.ready(60);
    d.on_dashcam_marker("system", "crash", 100, 1000);
    assert_eq!(d.on_dashcam_marker("agent", "look", 110, 1100), None);
    // The clip is deliberate now: no force close at the max window.
    let (plan, _) = d.physics_tick(100 + 120 * 60 + 1);
    assert!(plan.is_none());
    let plan = d.flush_dashcam_clip("done", 200, 2000).expect("open clip flushes");
    assert_eq!(plan.tier, DashcamTier::Deliberate);
}

#[test]
fn dashcam_rate_limiting_system_markers() {
    let mut d = Dashcam::new();
    d.ready(60);
    d.on_dashcam_marker("system", "first", 100, 1000);
    // 50 frames later, inside the 2 s (120 frame) interval: annotated only.
    assert_eq!(d.on_dashcam_marker("system", "again", 150, 1500), None);
    let plan = d.flush_dashcam_clip("end", 160, 1600).expect("clip");
    assert_eq!(plan.markers.len(), 2);
    assert_eq!(plan.tier, DashcamTier::System);
}

#[test]
fn dashcam_max_window_force_close() {
    let mut d = Dashcam::new();
    d.ready(60);
    d.on_dashcam_marker("system", "boom", 1000, 16000);
    let (plan, _) = d.physics_tick(1000 + 7200 - 1);
    assert!(plan.is_none());
    let (plan, _) = d.physics_tick(1000 + 7200);
    assert!(plan.is_some());
    assert_eq!(d.get_dashcam_state(), "buffering");
}

#[test]
fn dashcam_apply_config_json() {
    let mut d = Dashcam::new();
    let json = r#"{"pre_window_system_sec": 45, "post_window_deliberate_sec": 60, "byte_cap_mb": 512}"#;
    assert!(d.apply_dashcam_config(json));
    let cfg = d.config();
    assert_eq!(cfg.pre_window_system_sec, 45);
    assert_eq!(cfg.post_window_deliberate_sec, 60);
    assert_eq!(cfg.byte_cap_mb, 512);
    // Other fields unchanged
    assert_eq!(cfg.pre_window_deliberate_sec, 60);
}

#[test]
fn ring_cap_frames_respects_time_based_limit() {
    let cfg = DashcamConfig::default();
    assert_eq!(ring_cap_frames(&cfg, 60, 256), 3600, "time-based cap should be the binding constraint");
}

#[test]
fn ring_cap_frames_byte_cap_wins_for_large_frames() {
    let cfg = DashcamConfig { byte_cap_mb: 10, ..DashcamConfig::default() };
    let cap = ring_cap_frames(&cfg, 60, 10240);
    assert_eq!(cap, 1024, "byte-based cap should be the binding constraint for large frames");
    assert!(cap < 3600);
}

#[test]
fn dashcam_capture_interval_reduces_frame_count() {
    let cfg = DashcamConfig { capture_interval: 2, ..DashcamConfig::default() };
    assert_eq!(ring_cap_frames(&cfg, 60, 0), 1800);
    let mut d = Dashcam::new();
    let mut upd = no_update();
    upd.capture_interval = Some(2);
    d.apply_config(&upd);
    d.ready(60);
    let mut captured = 0;
    for f in 0u64..10 {
        let (_, capture) = d.physics_tick(f);
        if capture {
            captured += 1;
        }
    }
    assert_eq!(captured, 5);
}

#[test]
fn dashcam_merge_deliberate_into_deliberate_extends_window() {
    let mut d = Dashcam::new();
    d.ready(60);
    d.on_dashcam_marker("agent", "one", 10, 100);
    for i in 0u64..1000 {
        assert!(d.ingest(frame(i, 8)).is_none());
    }
    d.on_dashcam_marker("human", "two", 1010, 10100);
    // A full deliberate window (30 s at 60 fps) follows the second trigger.
    for i in 0u64..1799 {
        assert!(d.ingest(frame(2000 + i, 8)).is_none());
    }
    assert!(d.ingest(frame(4000, 8)).is_some());
}

#[test]
fn dashcam_system_trigger_into_deliberate_clip_does_not_downgrade() {
    let mut d = Dashcam::new();
    d.ready(60);
    d.on_dashcam_marker("agent", "look", 10, 100);
    d.on_dashcam_marker("system", "crash", 500, 5000);
    let plan = d.flush_dashcam_clip("end", 600, 6000).expect("clip");
    assert_eq!(plan.tier, DashcamTier::Deliberate, "tier must not downgrade");
}

#[test]
fn dashcam_min_after_sec_floor() {
    let cfg = DashcamConfig { post_window_system_sec: 2, min_after_sec: 5, ..DashcamConfig::default() };
    assert_eq!(post_window_frames(&cfg, 60, DashcamTier::System), 300);
}

#[test]
fn dashcam_force_close_not_applied_to_deliberate() {
    let mut d = Dashcam::new();
    d.ready(60);
    d.on_dashcam_marker("agent", "look", 1000, 16000);
    let (plan, _) = d.physics_tick(1000 + 120 * 60 + 10);
    assert!(plan.is_none(), "deliberate clips should not be force-closed");
    assert_eq!(d.get_dashcam_state(), "post_capture");
}

#[test]
fn dashcam_apply_config_partial_preserves_unset_fields() {
    let mut d = Dashcam::new();
    let before = d.config();
    assert!(d.apply_dashcam_config(r#"{"pre_window_system_sec": 45}"#));
    let cfg = d.config();
    assert_eq!(cfg.pre_window_system_sec, 45, "updated field should change");
    assert_eq!(cfg.post_window_system_sec, before.post_window_system_sec, "unset field should be preserved");
    assert_eq!(cfg.min_after_sec, before.min_after_sec, "unset field should be preserved");
}

#[test]
fn dashcam_config_enabled_toggle() {
    let mut d = Dashcam::new();
    assert!(d.config().enabled, "dashcam should be enabled by default");
    assert!(d.apply_dashcam_config(r#"{"enabled": false}"#));
    assert!(!d.config().enabled, "dashcam should be disabled after toggle");
}

#[test]
fn dashcam_config_from_json_skips_wrong_types_and_refuses_invalid_text() {
    let mut d = Dashcam::new();
    let before = d.config();
    assert!(!d.apply_dashcam_config("not json"));
    assert_eq!(d.config(), before);
    // A string, a negative number, a float and a number for `enabled` are not taken.
    assert!(d.apply_dashcam_config(
        r#"{"capture_interval": "2", "max_window_sec": -5, "min_after_sec": 1.5, "enabled": 1, "unknown": 7}"#
    ));
    assert_eq!(d.config(), before);
    // Numbers are taken in their low 32 bits.
    assert!(d.apply_dashcam_config(r#"{"byte_cap_mb": 4294967301}"#));
    assert_eq!(d.config().byte_cap_mb, 5);
}

#[test]
fn disabled_dashcam_ignores_markers_and_clears_ring() {
    let mut d = Dashcam::new();
    d.ready(60);
    d.ingest(frame(1, 100));
    assert_eq!(d.get_dashcam_buffer_frames(), 1);
    d.set_dashcam_enabled(false);
    assert!(!d.is_dashcam_active());
    assert_eq!(d.get_dashcam_buffer_frames(), 0);
    assert_eq!(d.on_dashcam_marker("agent", "x", 5, 50), None);
    assert_eq!(d.get_dashcam_state(), "disabled");
    d.set_dashcam_enabled(true);
    assert_eq!(d.get_dashcam_state(), "buffering");
}

#[test]
fn clip_holds_pre_and_post_frames_in_order() {
    let mut d = Dashcam::new();
    d.ready(60);
    d.ingest(frame(1, 4));
    d.ingest(frame(2, 4));
    d.on_dashcam_marker("agent", "x", 2, 32);
    d.ingest(frame(3, 4));
    let plan = d.flush_dashcam_clip("stop", 3, 48).expect("clip");
    let frames: Vec<u64> = plan.frames.iter().map(|f| f.frame).collect();
    assert_eq!(frames, vec![1, 2, 3]);
    assert_eq!(plan.first_frame, 1);
    assert_eq!(plan.last_frame, 3);
    assert_eq!(plan.total_frames, 3);
}
