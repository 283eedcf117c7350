use theatre::diagnostics::{join_lines, parse_godot_stderr, with_severity};

#[test]
fn parse_script_error() {
    let stderr = r#"ERROR: res://scenes/game/grid/grid.gd:70 - Parse Error: Identifier "GameState" not declared in the current scope."#;
    let diags = parse_godot_stderr(stderr);
    assert_eq!(diags.len(), 1);
    assert_eq!(diags[0].file, "scenes/game/grid/grid.gd");
    assert_eq!(diags[0].line, 70);
    assert_eq!(diags[0].severity, "error");
    assert!(diags[0].message.contains("GameState"));
}

#[test]
fn parse_warning() {
    let stderr = "WARNING: res://scripts/old.gd:5 - Unused variable 'x'.";
    let diags = parse_godot_stderr(stderr);
    assert_eq!(diags.len(), 1);
    assert_eq!(diags[0].severity, "warning");
}

#[test]
fn parse_gdscript_cpp_summary_line() {
    let stderr = r#"ERROR: modules/gdscript/gdscript.cpp:2907 - Failed to load script "res://debug/test_grid.gd" with error "Parse error"."#;
    let diags = parse_godot_stderr(stderr);
    assert_eq!(diags.len(), 1);
    assert_eq!(diags[0].file, "debug/test_grid.gd");
}

#[test]
fn deduplicates_repeated_errors() {
    let stderr = "\
ERROR: res://foo.gd:10 - Parse Error: bad.\n\
ERROR: res://foo.gd:10 - Parse Error: bad.\n\
ERROR: res://foo.gd:10 - Parse Error: bad.";
    let diags = parse_godot_stderr(stderr);
    assert_eq!(diags.len(), 1);
}

#[test]
fn empty_stderr_returns_empty() {
    let diags = parse_godot_stderr("");
    assert!(diags.is_empty());
}

#[test]
fn ignores_non_error_lines() {
    let stderr = "Godot Engine v4.6.1.stable.official\n\
[Stage] TCP server listening on 127.0.0.1:9077\n\
[Stage] TCP server stopped";
    let diags = parse_godot_stderr(stderr);
    assert!(diags.is_empty());
}

#[test]
fn strips_res_prefix_from_file_path() {
    let stderr = "ERROR: res://path/to/script.gd:1 - Some error.";
    let diags = parse_godot_stderr(stderr);
    assert_eq!(diags[0].file, "path/to/script.gd");
}

#[test]
fn sorts_by_file_then_line() {
    let stderr = "\
ERROR: res://b.gd:5 - err b5.\n\
ERROR: res://a.gd:10 - err a10.\n\
ERROR: res://a.gd:2 - err a2.";
    let diags = parse_godot_stderr(stderr);
    assert_eq!(diags[0].file, "a.gd");
    assert_eq!(diags[0].line, 2);
    assert_eq!(diags[1].file, "a.gd");
    assert_eq!(diags[1].line, 10);
    assert_eq!(diags[2].file, "b.gd");
}

#[test]
fn summary_line_duplicates_a_script_line_at_line_zero_only() {
    let stderr = "ERROR: res://x.gd:0 - Failed to load script\n\
ERROR: modules/gdscript/gdscript.cpp:1 - Failed to load script \"res://x.gd\" with error.";
    let diags = parse_godot_stderr(stderr);
    assert_eq!(diags.len(), 1);
    assert_eq!(diags[0].severity, "error");
}

#[test]
fn unparsable_line_number_becomes_zero_and_order_is_stable() {
    let stderr = "WARNING: res://a.gd:99999999999 - first.\nERROR: res://a.gd:0 - second.";
    let diags = parse_godot_stderr(stderr);
    assert_eq!(diags.len(), 2);
    assert_eq!(diags[0].message, "first.");
    assert_eq!(diags[0].line, 0);
    assert_eq!(diags[1].message, "second.");
}

#[test]
fn errors_and_warnings_are_split_by_severity() {
    let stderr = "ERROR: res://a.gd:1 - e.\nWARNING: res://b.gd:2 - w.\nERROR: res://c.gd:3 - e2.";
    let diags = parse_godot_stderr(stderr);
    let errors = with_severity(&diags, "error");
    let warnings = with_severity(&diags, "warning");
    assert_eq!(errors.len(), 2);
    assert_eq!(warnings.len(), 1);
    assert_eq!(warnings[0].file, "b.gd");
}

#[test]
fn log_lines_are_joined_with_newlines() {
    let lines = vec!["a".to_string(), "b".to_string(), "c".to_string()];
    assert_eq!(join_lines(&lines), "a\nb\nc");
    assert_eq!(join_lines(&Vec::new()), "");
}
