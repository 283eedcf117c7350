use theatre::oneshot::{missing_result_status, result_line};

#[test]
fn last_json_line_is_the_result() {
    let out = "Godot Engine v4.3\n{\"success\":true}\n[Stage] TCP server stopped\n";
    assert_eq!(result_line(out), Some("{\"success\":true}".into()));
    let two = "{\"a\":1}\r\n  {\"b\":2}  \r\nbye";
    assert_eq!(result_line(two), Some("  {\"b\":2}  ".into()));
}

#[test]
fn no_json_line_gives_none() {
    assert_eq!(result_line(""), None);
    assert_eq!(result_line("nothing here\n"), None);
    assert_eq!(missing_result_status(Some(3)), 3);
    assert_eq!(missing_result_status(None), -1);
}
