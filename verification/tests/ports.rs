use theatre::ports::{choose_daemon_port, choose_editor_port, parse_editor_port_from_project};

#[test]
fn parse_project_godot_port() {
    let contents = "\
[application]\nconfig/name=\"Test\"\n\n[director]\nconnection/editor_port=6600\n";
    assert_eq!(parse_editor_port_from_project(contents), Some(6600));
}

#[test]
fn parse_project_godot_no_section() {
    let contents = "[application]\nconfig/name=\"Test\"\n";
    assert_eq!(parse_editor_port_from_project(contents), None);
}

#[test]
fn parse_project_godot_wrong_section() {
    let contents = "[spectator]\nconnection/editor_port=6600\n";
    assert_eq!(parse_editor_port_from_project(contents), None);
}

#[test]
fn parse_project_godot_quoted_and_padded_value() {
    let contents = "[director]\r\n  connection/editor_port= \"7001\" \r\n";
    assert_eq!(parse_editor_port_from_project(contents), Some(7001));
}

#[test]
fn parse_project_godot_first_key_decides() {
    let contents = "[director]\nconnection/editor_port=abc\nconnection/editor_port=6600\n";
    assert_eq!(parse_editor_port_from_project(contents), None);
    let too_big = "[director]\nconnection/editor_port=70000\n";
    assert_eq!(parse_editor_port_from_project(too_big), None);
    let plus = "[director]\nconnection/editor_port=+6601\n";
    assert_eq!(parse_editor_port_from_project(plus), Some(6601));
}

#[test]
fn resolve_default_port() {
    assert_eq!(choose_editor_port(None, None), 6551);
}

#[test]
fn resolve_env_var_port() {
    assert_eq!(choose_editor_port(Some("7777"), None), 7777);
}

#[test]
fn editor_port_priority_env_then_project_then_default() {
    let project = "[director]\nconnection/editor_port=6600\n";
    assert_eq!(choose_editor_port(Some("7777"), Some(project)), 7777);
    assert_eq!(choose_editor_port(Some("not a port"), Some(project)), 6600);
    assert_eq!(choose_editor_port(None, Some("[application]\n")), 6551);
}

#[test]
fn test_resolve_daemon_port_default() {
    assert_eq!(choose_daemon_port(None), 6550);
}

#[test]
fn test_resolve_daemon_port_from_env() {
    assert_eq!(choose_daemon_port(Some("7777")), 7777);
    assert_eq!(choose_daemon_port(Some(" 7777")), 6550);
}
