use theatre::resolve::{resolve_godot_bin, resolve_scene_path, validate_project_path, ResolveError};

#[test]
fn resolve_godot_bin_uses_env_var() {
    let result = resolve_godot_bin(Some("/usr/bin/godot-fake".into()), None);
    assert_eq!(result, Ok("/usr/bin/godot-fake".to_string()));
    let found = resolve_godot_bin(None, Some("/opt/godot".into()));
    assert_eq!(found, Ok("/opt/godot".to_string()));
    assert_eq!(resolve_godot_bin(None, None), Err(ResolveError::GodotNotFound));
}

#[test]
fn validate_project_path_succeeds_for_valid_project() {
    assert!(validate_project_path("/tmp/project", true).is_ok());
}

#[test]
fn validate_project_path_fails_for_non_project() {
    let err = validate_project_path("/tmp/empty", false).unwrap_err();
    assert!(matches!(err, ResolveError::NotAProject(_)));
    assert_eq!(err.message(), "project_path '/tmp/empty' does not contain a project.godot file");
}

#[test]
fn resolve_scene_path_returns_full_path() {
    let result = resolve_scene_path("/tmp/p/test.tscn".into(), Some("/tmp/p".into()), true).unwrap();
    assert_eq!(result, "/tmp/p/test.tscn");
}

#[test]
fn resolve_scene_path_fails_for_missing_parent() {
    let err = resolve_scene_path("/tmp/p/missing_dir/test.tscn".into(), Some("/tmp/p/missing_dir".into()), false)
        .unwrap_err();
    assert!(matches!(err, ResolveError::ParentMissing(_)));
    assert_eq!(err.message(), "scene parent directory does not exist: /tmp/p/missing_dir");
}
