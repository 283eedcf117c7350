use theatre::static_classes::{classify_static_category, is_static_class, STATIC_CLASSES};

#[test]
fn static_body_2d_is_static() {
    assert!(is_static_class("StaticBody2D"));
}

#[test]
fn tilemap_layer_is_static() {
    assert!(is_static_class("TileMapLayer"));
}

#[test]
fn classify_2d_classes() {
    assert_eq!(classify_static_category("StaticBody2D"), "collision");
    assert_eq!(classify_static_category("TileMapLayer"), "tilemap");
    assert_eq!(classify_static_category("Sprite2D"), "visual");
    assert_eq!(classify_static_category("PointLight2D"), "lights");
}

#[test]
fn dynamic_classes_are_not_static() {
    assert!(!is_static_class("CharacterBody3D"));
    assert!(!is_static_class(""));
}

#[test]
fn every_static_class_has_a_category() {
    for class in STATIC_CLASSES {
        assert!(is_static_class(class));
        assert_ne!(classify_static_category(class), "other", "{class}");
    }
}
