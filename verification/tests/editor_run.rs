use theatre::editor_run::{validate_action, EditorRunAction, EditorRunParams};

fn params(action: EditorRunAction, scene_path: Option<&str>) -> EditorRunParams {
    EditorRunParams {
        project_path: "/project".into(),
        action,
        scene_path: scene_path.map(str::to_owned),
    }
}

#[test]
fn action_specific_scene_path_validation_is_explicit() {
    assert!(validate_action(&params(EditorRunAction::Start, Some("main.tscn"))).is_ok());
    assert!(validate_action(&params(EditorRunAction::Restart, None)).is_err());
    assert!(validate_action(&params(EditorRunAction::Stop, Some("main.tscn"))).is_err());
    assert!(validate_action(&params(EditorRunAction::Status, None)).is_ok());
}

#[test]
fn validation_messages_name_the_rule() {
    let e = validate_action(&params(EditorRunAction::Start, Some(""))).unwrap_err();
    assert_eq!(e.message, "scene_path is required for start and restart");
    let e = validate_action(&params(EditorRunAction::Status, Some("x.tscn"))).unwrap_err();
    assert_eq!(e.message, "scene_path is only valid for start and restart");
}
