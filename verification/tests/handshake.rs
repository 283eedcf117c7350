use theatre::handshake::{Handshake, HandshakeAck, HandshakeError, SceneDimensions, PROTOCOL_VERSION};

#[test]
fn scene_dimensions_from_u32() {
    assert_eq!(SceneDimensions::from_u32(2), SceneDimensions::Two);
    assert_eq!(SceneDimensions::from_u32(3), SceneDimensions::Three);
    assert_eq!(SceneDimensions::from_u32(0), SceneDimensions::Mixed);
    assert_eq!(SceneDimensions::from_u32(99), SceneDimensions::Mixed);
}

#[test]
fn scene_dimensions_predicates() {
    assert!(SceneDimensions::Two.is_2d());
    assert!(!SceneDimensions::Two.is_3d());
    assert!(SceneDimensions::Three.is_3d());
    assert!(SceneDimensions::Mixed.is_mixed());
}

#[test]
fn handshake_dimensions_helper() {
    let h = Handshake::new("4.3".into(), 2, 60, "TestProject".into());
    assert_eq!(h.dimensions(), SceneDimensions::Two);
    let h3 = Handshake::new("4.3".into(), 3, 60, "TestProject".into());
    assert_eq!(h3.dimensions(), SceneDimensions::Three);
}

#[test]
fn handshake_carries_versions() {
    let h = Handshake::new("4.3".into(), 3, 60, "TestProject".into());
    assert_eq!(h.protocol_version, PROTOCOL_VERSION);
    assert_eq!(h.spectator_version, "0.1.0");
    assert_eq!(h.project_name, "TestProject");
    let ack = HandshakeAck::new("sess_abc123".into());
    assert_eq!(ack.session_id, "sess_abc123");
}

#[test]
fn version_mismatch_message_names_both_versions() {
    let err = HandshakeError::version_mismatch(99);
    assert_eq!(
        err.message,
        "Protocol version mismatch: server supports v1, addon sent v99"
    );
}
