use theatre::cli::{
    dispatch, godot_not_found, invalid_json, missing_params, missing_project_path, params_source,
    parse_command, result_exit_code, stdin_params, CliCommand, Dispatch, ParamsSource,
};

fn args(v: &[&str]) -> Vec<String> {
    v.iter().map(|s| s.to_string()).collect()
}

#[test]
fn commands_are_read_from_the_first_argument() {
    assert_eq!(parse_command(&args(&[])), CliCommand::Usage);
    assert_eq!(parse_command(&args(&["-h"])), CliCommand::Usage);
    assert_eq!(parse_command(&args(&["--help"])), CliCommand::Usage);
    assert_eq!(parse_command(&args(&["serve"])), CliCommand::Serve);
    assert_eq!(parse_command(&args(&["-V"])), CliCommand::Version);
    assert_eq!(parse_command(&args(&["__process-supervisor", "godot"])), CliCommand::Supervise);
    assert_eq!(
        parse_command(&args(&["scene_read", "{}"])),
        CliCommand::Operation { name: "scene_read".into(), json_arg: Some("{}".into()) }
    );
    assert_eq!(
        parse_command(&args(&["scene_read"])),
        CliCommand::Operation { name: "scene_read".into(), json_arg: None }
    );
}

#[test]
fn params_come_from_argument_then_stdin() {
    assert_eq!(params_source(Some("{}"), true), ParamsSource::Argument("{}".into()));
    assert_eq!(params_source(None, false), ParamsSource::Stdin);
    assert_eq!(params_source(None, true), ParamsSource::Missing);
    assert_eq!(stdin_params("  \n"), None);
    assert_eq!(stdin_params(" {\"a\":1}\n"), Some("{\"a\":1}".into()));
}

#[test]
fn error_replies_have_their_codes_and_exit_status() {
    let e = invalid_json("expected value", false);
    assert_eq!(e.error, "invalid_json");
    assert_eq!(e.message, "Invalid JSON: expected value");
    assert_eq!(e.exit_code, 2);
    let e = invalid_json("eof", true);
    assert_eq!(e.message, "Invalid JSON from stdin: eof");
    let e = missing_params("scene_read");
    assert_eq!(e.message, "No JSON params provided. Usage: director scene_read '<json>'");
    let e = missing_project_path();
    assert_eq!(e.message, "params must include \"project_path\"");
    let e = godot_not_found("nope");
    assert_eq!(e.hint.as_deref(), Some("Ensure Godot is installed and in your PATH."));
    assert_eq!(e.exit_code, 1);
}

#[test]
fn tool_calls_are_dispatched_by_name_and_project() {
    assert_eq!(dispatch("feedback", None), Dispatch::Feedback);
    assert_eq!(dispatch("scene_read", None), Dispatch::MissingProjectPath);
    assert_eq!(
        dispatch("editor_run", Some("/p")),
        Dispatch::EditorRun { project_path: "/p".into() }
    );
    assert_eq!(
        dispatch("scene_read", Some("/p")),
        Dispatch::Operation { project_path: "/p".into() }
    );
}

#[test]
fn failed_operation_result_exits_with_a_runtime_error() {
    assert_eq!(result_exit_code(true), 0);
    assert_eq!(result_exit_code(false), 1);
}
