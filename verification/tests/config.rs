use theatre::cluster::ClusterStrategy;
use theatre::config::{glob_match, BearingFormat, ConfigUpdate, SessionConfig};

#[test]
fn default_config() {
    let config = SessionConfig::default();
    assert!(config.static_patterns.is_empty());
    assert!(config.state_properties.is_empty());
    assert_eq!(config.cluster_by, ClusterStrategy::Group);
    assert_eq!(config.bearing_format, BearingFormat::Both);
    assert!(!config.expose_internals);
    assert_eq!(config.poll_interval, 1);
    assert_eq!(config.token_hard_cap, 5000);
}

#[test]
fn apply_partial_update() {
    let mut config = SessionConfig::default();
    let update = ConfigUpdate {
        static_patterns: Some(vec!["walls/*".into()]),
        ..Default::default()
    };
    config.apply_update(&update);
    assert_eq!(config.static_patterns, vec!["walls/*"]);
    // Other fields unchanged
    assert_eq!(config.token_hard_cap, 5000);
}

#[test]
fn glob_match_simple() {
    assert!(glob_match("walls/*", "walls/segment_01"));
    assert!(glob_match("walls/*", "walls/door_02"));
    assert!(!glob_match("walls/*", "enemies/scout"));
    assert!(!glob_match("walls/*", "walls")); // no trailing segment
}

#[test]
fn glob_match_exact() {
    assert!(glob_match("player", "player"));
    assert!(!glob_match("player", "players"));
}

#[test]
fn glob_match_wildcard_all() {
    assert!(glob_match("*", "anything"));
    assert!(glob_match("*", "walls/segment_01"));
}

#[test]
fn filter_state_properties_empty_config() {
    let config = SessionConfig::default();
    assert!(
        config
            .filter_state_properties(&["enemies".into()], "CharacterBody3D")
            .is_none()
    );
}

#[test]
fn filter_state_properties_by_group() {
    let mut config = SessionConfig::default();
    config.state_properties.insert(
        "enemies".into(),
        vec!["health".into(), "alert_level".into()],
    );
    let result = config.filter_state_properties(&["enemies".into()], "CharacterBody3D");
    assert_eq!(result, Some(vec!["alert_level".into(), "health".into()]));
}

#[test]
fn filter_state_properties_wildcard() {
    let mut config = SessionConfig::default();
    config
        .state_properties
        .insert("*".into(), vec!["visible".into()]);
    let result = config.filter_state_properties(&[], "Node3D");
    assert_eq!(result, Some(vec!["visible".into()]));
}

#[test]
fn filter_state_properties_merged() {
    let mut config = SessionConfig::default();
    config
        .state_properties
        .insert("enemies".into(), vec!["health".into()]);
    config
        .state_properties
        .insert("*".into(), vec!["visible".into()]);
    let result = config.filter_state_properties(&["enemies".into()], "CharacterBody3D");
    let mut expected: Vec<String> = vec!["health".into(), "visible".into()];
    expected.sort();
    assert_eq!(result, Some(expected));
}

#[test]
fn static_pattern_matching_uses_every_pattern() {
    let mut config = SessionConfig::default();
    let update = ConfigUpdate {
        static_patterns: Some(vec!["walls/*".into(), "floor".into()]),
        ..Default::default()
    };
    config.apply_update(&update);
    assert!(config.matches_static_pattern("walls/a"));
    assert!(config.matches_static_pattern("floor"));
    assert!(!config.matches_static_pattern("enemies/a"));
}

#[test]
fn filter_state_properties_by_class_key() {
    let mut config = SessionConfig::default();
    config
        .state_properties
        .insert("CharacterBody3D".into(), vec!["velocity".into(), "health".into()]);
    let result = config.filter_state_properties(&[], "CharacterBody3D");
    assert_eq!(result, Some(vec!["health".into(), "velocity".into()]));
}
