use theatre::cluster::{generate_cluster_summary, ClusterStrategy, StateValues};

fn with_state(state: Option<&str>, mode: Option<&str>) -> StateValues {
    StateValues {
        state: state.map(String::from),
        alert_level: None,
        status: None,
        mode: mode.map(String::from),
    }
}

#[test]
fn cluster_summary_generation() {
    let entities = vec![
        with_state(Some("idle"), None),
        with_state(Some("patrol"), None),
        with_state(Some("idle"), None),
    ];
    assert_eq!(generate_cluster_summary(&entities), Some("2 idle, 1 patrol".to_string()));
}

#[test]
fn cluster_summary_none_when_no_state_keys() {
    let entities = vec![with_state(None, None)];
    assert_eq!(generate_cluster_summary(&entities), None);
    assert_eq!(generate_cluster_summary(&Vec::new()), None);
}

#[test]
fn cluster_summary_uses_the_first_present_key_and_breaks_ties_by_value() {
    let entities = vec![
        with_state(None, Some("b")),
        with_state(None, Some("a")),
        with_state(None, Some("c")),
        with_state(None, Some("c")),
    ];
    assert_eq!(generate_cluster_summary(&entities), Some("2 c, 1 a, 1 b".to_string()));
}

#[test]
fn default_strategy_is_group() {
    assert_eq!(ClusterStrategy::default(), ClusterStrategy::Group);
}

use theatre::cluster::{group_label, partition_by_label};

#[test]
fn cluster_by_group_basic() {
    let groups = [vec!["enemies".to_string()], vec![], vec!["allies".to_string(), "x".to_string()], vec!["enemies".to_string()]];
    let labels: Vec<String> = groups.iter().map(group_label).collect();
    assert_eq!(labels, vec!["enemies", "other", "allies", "enemies"]);
    let is_static = vec![false, false, false, false];
    let (clusters, statics) = partition_by_label(&labels, &is_static);
    assert_eq!(statics, 0);
    let view: Vec<(String, Vec<usize>)> = clusters.into_iter().map(|g| (g.label, g.members)).collect();
    assert_eq!(
        view,
        vec![
            ("allies".to_string(), vec![2]),
            ("enemies".to_string(), vec![0, 3]),
            ("other".to_string(), vec![1]),
        ]
    );
}

#[test]
fn static_entities_separate_cluster() {
    let labels = vec!["walls".to_string(), "enemies".to_string(), "walls".to_string()];
    let is_static = vec![true, false, true];
    let (clusters, statics) = partition_by_label(&labels, &is_static);
    assert_eq!(statics, 2);
    assert_eq!(clusters.len(), 1);
    assert_eq!(clusters[0].label, "enemies");
    assert_eq!(clusters[0].members, vec![1]);
}

#[test]
fn cluster_by_class_basic() {
    // "enemies/e1" and "pickups/p1" are both of class Node3D.
    let labels = vec!["Node3D".to_string(), "Node3D".to_string()];
    let (clusters, statics) = partition_by_label(&labels, &vec![false, false]);
    assert_eq!(statics, 0);
    assert_eq!(clusters.len(), 1);
    assert_eq!(clusters[0].label, "Node3D");
    assert_eq!(clusters[0].members.len(), 2);
}

#[test]
fn cluster_dispatch_group() {
    // "enemies/e1" is in the group "enemies".
    let labels = vec![group_label(&vec!["enemies".to_string()])];
    let (clusters, _) = partition_by_label(&labels, &vec![false]);
    assert_eq!(clusters[0].label, "enemies");
}

#[test]
fn ungrouped_entities_in_other() {
    // "node1" is in no group.
    let labels = vec![group_label(&Vec::new())];
    let (clusters, _) = partition_by_label(&labels, &vec![false]);
    assert_eq!(clusters.len(), 1);
    assert_eq!(clusters[0].label, "other");
    assert_eq!(clusters[0].members.len(), 1);
}
