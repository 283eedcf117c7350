use theatre::delta::partition_entities;

fn paths(p: &[&str]) -> Vec<String> {
    p.iter().map(|s| s.to_string()).collect()
}

#[test]
fn detect_entered_entity() {
    let previous = paths(&["enemy_a"]);
    let current = paths(&["enemy_a", "enemy_b"]);
    let parts = partition_entities(&previous, &current);
    assert_eq!(parts.entered.len(), 1);
    assert_eq!(current[parts.entered[0]], "enemy_b");
    assert_eq!(parts.matched, vec![(0, 0)]);
    assert!(parts.exited.is_empty());
}

#[test]
fn detect_exited_entity() {
    let previous = paths(&["enemy_a", "enemy_b"]);
    let current = paths(&["enemy_a"]);
    let parts = partition_entities(&previous, &current);
    assert_eq!(parts.exited.len(), 1);
    assert_eq!(previous[parts.exited[0]], "enemy_b");
    assert!(parts.entered.is_empty());
}

#[test]
fn matched_entities_point_at_their_earlier_selves() {
    let previous = paths(&["c", "a", "b"]);
    let current = paths(&["a", "d", "b", "e"]);
    let parts = partition_entities(&previous, &current);
    assert_eq!(parts.matched, vec![(0, 1), (2, 2)]);
    assert_eq!(parts.entered, vec![1, 3]);
    assert_eq!(parts.exited, vec![0]);
}

#[test]
fn first_run_has_everything_entering() {
    let parts = partition_entities(&Vec::new(), &paths(&["x", "y"]));
    assert_eq!(parts.entered, vec![0, 1]);
    assert!(parts.matched.is_empty());
    assert!(parts.exited.is_empty());
}
