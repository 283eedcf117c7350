use theatre::process::{append_tail, STDERR_TAIL_LIMIT};

#[test]
fn stderr_tail_keeps_only_the_newest_bytes() {
    let mut tail = b"older".to_vec();
    append_tail(&mut tail, b"newest", 6);
    assert_eq!(tail, b"newest");
}

#[test]
fn stderr_tail_keeps_everything_under_the_limit() {
    let mut tail = b"ab".to_vec();
    append_tail(&mut tail, b"cd", 10);
    assert_eq!(tail, b"abcd");
    append_tail(&mut tail, b"efghijkl", 10);
    assert_eq!(tail, b"cdefghijkl");
    assert_eq!(STDERR_TAIL_LIMIT, 64 * 1024);
}
