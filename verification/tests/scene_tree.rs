use theatre::query::{FindBy, GetSceneTreeParams, SceneTreeAction, TreeInclude};
use theatre::scene_tree::{
    ancestor_infos, build_subtree, child_infos, child_props, connected_signal_names, count_nodes,
    exported_property_names, find_nodes, frame_timestamp_ms, handshake_dimensions, has_node_kind,
    is_exported_property, is_spectator_node, matches_filters, node_not_found,
    recording_dimensions, scene_tree_request, should_collect, snapshot_paths, ChildProps,
    NodeKind, PropertyEntry, SceneNode, SceneTreeRequest, SignalEntry, SubtreeChildren,
};

fn node(name: &str, class: &str, kind: NodeKind, children: Vec<SceneNode>) -> SceneNode {
    SceneNode {
        name: name.to_string(),
        class: class.to_string(),
        kind,
        groups: Vec::new(),
        script: None,
        visible_in_tree: true,
        process_mode: "Inherit".to_string(),
        children,
    }
}

fn with_groups(mut n: SceneNode, groups: &[&str]) -> SceneNode {
    n.groups = groups.iter().map(|g| g.to_string()).collect();
    n
}

/// Main (Node3D)
/// ├── Player (CharacterBody3D, groups "_physics_bodies" and "players", script res://player.gd)
/// │   └── Camera (Camera3D)
/// ├── Enemy (CharacterBody3D, group "enemies")
/// ├── SpectatorCollector (Node)
/// │   └── PlayerShadow (Node3D)
/// └── Hud (Control)
fn scene() -> SceneNode {
    let mut player = with_groups(
        node(
            "Player",
            "CharacterBody3D",
            NodeKind::Spatial3D,
            vec![node("Camera", "Camera3D", NodeKind::Spatial3D, vec![])],
        ),
        &["_physics_bodies", "players"],
    );
    player.script = Some("res://player.gd".to_string());
    let enemy = with_groups(node("Enemy", "CharacterBody3D", NodeKind::Spatial3D, vec![]), &["enemies"]);
    let spectator = node(
        "SpectatorCollector",
        "Node",
        NodeKind::Plain,
        vec![node("PlayerShadow", "Node3D", NodeKind::Spatial3D, vec![])],
    );
    let hud = node("Hud", "Control", NodeKind::Plain, vec![]);
    node("Main", "Node3D", NodeKind::Spatial3D, vec![player, enemy, spectator, hud])
}

#[test]
fn spectator_nodes_are_recognised() {
    assert!(is_spectator_node(&node("SpectatorRuntime", "Node", NodeKind::Plain, vec![])));
    assert!(is_spectator_node(&node("SpectatorTCPServer2", "Node", NodeKind::Plain, vec![])));
    assert!(is_spectator_node(&node("SpectatorRecorder", "Node", NodeKind::Plain, vec![])));
    assert!(is_spectator_node(&with_groups(
        node("Helper", "Node", NodeKind::Plain, vec![]),
        &["ui", "spectator_internal"]
    )));
    assert!(!is_spectator_node(&node("SpectatorRuntimeX", "Node", NodeKind::Plain, vec![])));
    assert!(!is_spectator_node(&node("Player", "Node3D", NodeKind::Spatial3D, vec![])));
}

#[test]
fn node_kind_search_looks_through_the_whole_tree() {
    let s = scene();
    assert!(has_node_kind(&s, false));
    assert!(!has_node_kind(&s, true));
    let deep_2d = node(
        "Root",
        "Node",
        NodeKind::Plain,
        vec![node("A", "Node", NodeKind::Plain, vec![node("Sprite", "Sprite2D", NodeKind::Spatial2D, vec![])])],
    );
    assert!(has_node_kind(&deep_2d, true));
    assert!(!has_node_kind(&deep_2d, false));
}

#[test]
fn children_leave_out_spectator_nodes() {
    let s = scene();
    let includes = vec![TreeInclude::Class, TreeInclude::Groups];
    let kids = child_infos(&s, &includes);
    let names: Vec<&str> = kids.iter().map(|k| k.name.as_str()).collect();
    assert_eq!(names, vec!["Player", "Enemy", "Hud"]);
    assert_eq!(kids[0].class.as_deref(), Some("CharacterBody3D"));
    assert_eq!(kids[0].groups, Some(vec!["players".to_string()]));
    // No groups key for a node in no group.
    assert_eq!(kids[2].groups, None);
    assert_eq!(kids[0].script, None);
    assert_eq!(kids[0].path, None);
}

#[test]
fn node_report_holds_what_was_asked() {
    let s = scene();
    let includes = vec![TreeInclude::Script, TreeInclude::Visible, TreeInclude::ProcessMode];
    let kids = child_infos(&s, &includes);
    assert_eq!(kids[0].class, None);
    assert_eq!(kids[0].script.as_deref(), Some("res://player.gd"));
    assert_eq!(kids[0].visible, Some(true));
    assert_eq!(kids[0].process_mode.as_deref(), Some("Inherit"));
    // Visibility is reported for 3D nodes only.
    assert_eq!(kids[2].visible, None);
}

#[test]
fn find_by_name_reports_paths_in_depth_first_order() {
    let s = scene();
    let found = find_nodes(&s, FindBy::Name, "a", &vec![]);
    let got: Vec<(&str, &str)> =
        found.iter().map(|f| (f.name.as_str(), f.path.as_deref().unwrap())).collect();
    // Main, Player, Camera contain "a"; PlayerShadow sits under a spectator node.
    assert_eq!(got, vec![("Main", "."), ("Player", "Player"), ("Camera", "Player/Camera")]);
}

#[test]
fn find_by_class_group_and_script() {
    let s = scene();
    let by_class = find_nodes(&s, FindBy::Class, "CharacterBody3D", &vec![]);
    let names: Vec<&str> = by_class.iter().map(|f| f.name.as_str()).collect();
    assert_eq!(names, vec!["Player", "Enemy"]);
    let by_group = find_nodes(&s, FindBy::Group, "enemies", &vec![]);
    assert_eq!(by_group.len(), 1);
    assert_eq!(by_group[0].path.as_deref(), Some("Enemy"));
    let by_script = find_nodes(&s, FindBy::Script, "res://player.gd", &vec![]);
    assert_eq!(by_script.len(), 1);
    assert_eq!(by_script[0].name, "Player");
    assert!(find_nodes(&s, FindBy::Class, "Camera", &vec![]).is_empty());
    // A search by group sees the engine's own groups too.
    assert_eq!(find_nodes(&s, FindBy::Group, "_physics_bodies", &vec![]).len(), 1);
}

#[test]
fn engine_groups_and_unsaved_scripts_are_not_reported() {
    let mut n = with_groups(node("Thing", "Node", NodeKind::Plain, vec![]), &["_hidden"]);
    n.script = Some(String::new());
    let holder = node("Holder", "Node", NodeKind::Plain, vec![n]);
    let kids = child_infos(&holder, &vec![TreeInclude::Groups, TreeInclude::Script]);
    assert_eq!(kids[0].groups, None);
    assert_eq!(kids[0].script, None);
    assert!(find_nodes(&holder, FindBy::Script, "", &vec![]).is_empty());
}

#[test]
fn subtree_stops_at_the_depth_limit() {
    let s = scene();
    let t = build_subtree(&s, 1, 0, &vec![]);
    assert_eq!(t.info.name, "Main");
    match &t.children {
        SubtreeChildren::Expanded(kids) => {
            let names: Vec<&str> = kids.iter().map(|k| k.info.name.as_str()).collect();
            assert_eq!(names, vec!["Player", "Enemy", "Hud"]);
            assert!(matches!(kids[0].children, SubtreeChildren::DepthLimitReached));
            assert!(matches!(kids[1].children, SubtreeChildren::Leaf));
        }
        other => panic!("expected expanded children, got {:?}", other),
    }
    let flat = build_subtree(&s, 0, 0, &vec![]);
    assert!(matches!(flat.children, SubtreeChildren::DepthLimitReached));
    let deep = build_subtree(&s, 5, 0, &vec![]);
    match &deep.children {
        SubtreeChildren::Expanded(kids) => match &kids[0].children {
            SubtreeChildren::Expanded(grand) => {
                assert_eq!(grand[0].info.name, "Camera");
                assert!(matches!(grand[0].children, SubtreeChildren::Leaf));
            }
            other => panic!("expected expanded grandchildren, got {:?}", other),
        },
        other => panic!("expected expanded children, got {:?}", other),
    }
}

#[test]
fn subtree_of_only_spectator_children_is_a_leaf() {
    let n = node(
        "Holder",
        "Node",
        NodeKind::Plain,
        vec![node("SpectatorRuntime", "Node", NodeKind::Plain, vec![])],
    );
    assert!(matches!(build_subtree(&n, 3, 0, &vec![]).children, SubtreeChildren::Leaf));
    assert!(matches!(build_subtree(&n, 0, 0, &vec![]).children, SubtreeChildren::DepthLimitReached));
}

#[test]
fn node_count_includes_every_node() {
    assert_eq!(count_nodes(&scene()), 7);
    assert_eq!(count_nodes(&node("Lone", "Node", NodeKind::Plain, vec![])), 1);
}

#[test]
fn ancestors_run_up_to_the_root() {
    let window = node("root", "Window", NodeKind::Plain, vec![scene()]);
    let chain = ancestor_infos(&window, &vec![0, 0, 0], &vec![]);
    let names: Vec<&str> = chain.iter().map(|c| c.name.as_str()).collect();
    assert_eq!(names, vec!["Camera", "Player", "Main"]);
    let top = ancestor_infos(&window, &vec![0], &vec![]);
    assert_eq!(top.len(), 1);
    assert_eq!(top[0].name, "Main");
    let itself = ancestor_infos(&window, &vec![], &vec![]);
    assert_eq!(itself[0].name, "root");
}

fn params(action: SceneTreeAction) -> GetSceneTreeParams {
    GetSceneTreeParams {
        action,
        node: None,
        depth: 3,
        find_by: None,
        find_value: None,
        includes: vec![TreeInclude::Class],
    }
}

#[test]
fn scene_tree_request_names_the_missing_parameter() {
    assert_eq!(scene_tree_request(&params(SceneTreeAction::Roots)), Ok(SceneTreeRequest::Roots));
    assert_eq!(
        scene_tree_request(&params(SceneTreeAction::Children)),
        Err("'node' is required for 'children' action".to_string())
    );
    assert_eq!(
        scene_tree_request(&params(SceneTreeAction::Subtree)),
        Err("'node' is required for 'subtree' action".to_string())
    );
    assert_eq!(
        scene_tree_request(&params(SceneTreeAction::Ancestors)),
        Err("'node' is required for 'ancestors' action".to_string())
    );
    assert_eq!(
        scene_tree_request(&params(SceneTreeAction::Find)),
        Err("'find_by' is required for 'find' action".to_string())
    );
    let mut p = params(SceneTreeAction::Find);
    p.find_by = Some(FindBy::Group);
    assert_eq!(
        scene_tree_request(&p),
        Err("'find_value' is required for 'find' action".to_string())
    );
    p.find_value = Some("enemies".to_string());
    assert_eq!(
        scene_tree_request(&p),
        Ok(SceneTreeRequest::Find { find_by: FindBy::Group, find_value: "enemies".to_string() })
    );
    let mut sub = params(SceneTreeAction::Subtree);
    sub.node = Some("Player".to_string());
    sub.depth = 2;
    assert_eq!(
        scene_tree_request(&sub),
        Ok(SceneTreeRequest::Subtree { node: "Player".to_string(), depth: 2 })
    );
}

#[test]
fn missing_node_message() {
    assert_eq!(node_not_found("Player/Gun"), "Node 'Player/Gun' not found");
}

#[test]
fn snapshot_filters() {
    let s = scene();
    let player = &s.children[0];
    let none: Vec<String> = vec![];
    assert!(should_collect(player, &none, &none));
    assert!(should_collect(player, &vec!["CharacterBody3D".to_string()], &none));
    assert!(!should_collect(player, &vec!["Camera3D".to_string()], &none));
    assert!(should_collect(player, &none, &vec!["enemies".to_string(), "players".to_string()]));
    assert!(!should_collect(player, &none, &vec!["enemies".to_string()]));
    assert!(!should_collect(
        player,
        &vec!["CharacterBody3D".to_string()],
        &vec!["enemies".to_string()]
    ));
}

#[test]
fn exported_state_takes_editor_visible_script_variables() {
    assert!(is_exported_property(4096 | 4));
    assert!(is_exported_property(4096 | 4 | 2));
    assert!(!is_exported_property(4096));
    assert!(!is_exported_property(4 | 2));
    let props = vec![
        PropertyEntry { name: "health".to_string(), usage: 4102 },
        PropertyEntry { name: "position".to_string(), usage: 6 },
        PropertyEntry { name: String::new(), usage: 4100 },
        PropertyEntry { name: "speed".to_string(), usage: 4100 },
    ];
    assert_eq!(exported_property_names(&props), vec!["health".to_string(), "speed".to_string()]);
}

#[test]
fn connected_signals_are_those_with_connections() {
    let signals = vec![
        SignalEntry { name: "ready".to_string(), connections: 0 },
        SignalEntry { name: "died".to_string(), connections: 2 },
        SignalEntry { name: String::new(), connections: 1 },
        SignalEntry { name: "hit".to_string(), connections: 1 },
    ];
    assert_eq!(connected_signal_names(&signals), vec!["died".to_string(), "hit".to_string()]);
}

#[test]
fn child_props_by_class() {
    assert_eq!(child_props("CollisionShape3D"), ChildProps::Shape);
    assert_eq!(child_props("MeshInstance3D"), ChildProps::Visible);
    assert_eq!(child_props("Area3D"), ChildProps::OverlappingBodies);
    assert_eq!(child_props("NavigationAgent3D"), ChildProps::Nothing);
    assert_eq!(child_props("Node3D"), ChildProps::Nothing);
}

#[test]
fn frame_time_in_milliseconds() {
    assert_eq!(frame_timestamp_ms(120, 60), 2000);
    assert_eq!(frame_timestamp_ms(1, 60), 16);
    assert_eq!(frame_timestamp_ms(500, 0), 0);
}

#[test]
fn search_reports_each_node_at_most_once() {
    let s = scene();
    // Every name contains the empty string: every node outside the
    // spectator's own subtree is reported, once.
    let all = find_nodes(&s, FindBy::Name, "", &vec![]);
    let paths: Vec<&str> = all.iter().map(|f| f.path.as_deref().unwrap()).collect();
    assert_eq!(paths, vec![".", "Player", "Player/Camera", "Enemy", "Hud"]);
    assert!(all.len() <= count_nodes(&s));
}

#[test]
fn entity_filters_need_a_shared_group_and_a_listed_class() {
    let groups = vec!["enemies".to_string(), "flying".to_string()];
    let none: Vec<String> = vec![];
    assert!(matches_filters("CharacterBody3D", &groups, &none, &none));
    assert!(matches_filters("CharacterBody3D", &groups, &none, &vec!["pickups".to_string(), "flying".to_string()]));
    assert!(!matches_filters("CharacterBody3D", &groups, &none, &vec!["pickups".to_string()]));
    assert!(matches_filters("CharacterBody3D", &groups, &vec!["Area3D".to_string(), "CharacterBody3D".to_string()], &none));
    assert!(!matches_filters("CharacterBody3D", &groups, &vec!["Area3D".to_string()], &none));
    assert!(!matches_filters("CharacterBody3D", &none, &none, &vec!["enemies".to_string()]));
}

#[test]
fn snapshot_collects_filtered_3d_nodes_in_tree_order() {
    let s = scene();
    let none: Vec<String> = vec![];
    // Hud is not a 3D node; PlayerShadow sits under a spectator node.
    assert_eq!(snapshot_paths(&s, &none, &none), vec![".", "Player", "Player/Camera", "Enemy"]);
    assert_eq!(snapshot_paths(&s, &vec!["CharacterBody3D".to_string()], &none), vec!["Player", "Enemy"]);
    assert_eq!(snapshot_paths(&s, &none, &vec!["enemies".to_string()]), vec!["Enemy"]);
    // A 3D node under a plain one is still found.
    let mixed = node(
        "Root",
        "Node",
        NodeKind::Plain,
        vec![node("Group", "Node", NodeKind::Plain, vec![node("Crate", "RigidBody3D", NodeKind::Spatial3D, vec![])])],
    );
    assert_eq!(snapshot_paths(&mixed, &none, &none), vec!["Group/Crate"]);
}

#[test]
fn scene_dimensions_for_handshake_and_recording() {
    let three_d = scene();
    let two_d = node("Level", "Node2D", NodeKind::Spatial2D, vec![]);
    let mixed = node(
        "Mixed",
        "Node",
        NodeKind::Plain,
        vec![node("A", "Node2D", NodeKind::Spatial2D, vec![]), node("B", "Node3D", NodeKind::Spatial3D, vec![])],
    );
    let plain = node("Empty", "Node", NodeKind::Plain, vec![]);
    assert_eq!(handshake_dimensions(Some(&three_d)), 3);
    assert_eq!(handshake_dimensions(Some(&two_d)), 2);
    assert_eq!(handshake_dimensions(Some(&mixed)), 0);
    assert_eq!(handshake_dimensions(Some(&plain)), 3);
    assert_eq!(handshake_dimensions(None), 3);
    assert_eq!(recording_dimensions(Some(&two_d)), 2);
    assert_eq!(recording_dimensions(Some(&mixed)), 3);
    assert_eq!(recording_dimensions(Some(&three_d)), 3);
    assert_eq!(recording_dimensions(None), 3);
}
