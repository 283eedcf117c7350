use theatre::backend::{
    editor_required_message, foreign_project_message, unknown_outcome_message, BackendKind,
    DaemonCache, DaemonRelease, EditorCache, EditorIdentity, Route, RouteAction, RouteEvent,
    RouteFailure,
};

fn run(events: &[RouteEvent]) -> (Route, Vec<RouteAction>) {
    run_with(false, events)
}

fn run_with(editor_only: bool, events: &[RouteEvent]) -> (Route, Vec<RouteAction>) {
    let (mut route, first) = Route::begin(editor_only);
    let mut actions = vec![first];
    for e in events {
        let (next, a) = route.step(*e);
        route = next;
        actions.push(a);
    }
    (route, actions)
}

#[test]
fn live_editor_serves_without_touching_the_daemon() {
    let (route, actions) = run(&[
        RouteEvent::EditorCacheIs(EditorCache::Verified),
        RouteEvent::Replied { ok: true },
    ]);
    assert!(route.is_finished());
    assert_eq!(
        actions,
        vec![
            RouteAction::CheckEditor,
            RouteAction::SendToCachedEditor,
            RouteAction::Finish { by: BackendKind::Editor, ok: true, keep_new: false },
        ]
    );
}

#[test]
fn unreachable_editor_falls_through_to_a_new_daemon() {
    let (route, actions) = run(&[
        RouteEvent::EditorCacheIs(EditorCache::Empty),
        RouteEvent::Connected { ok: false },
        RouteEvent::DaemonCacheIs(DaemonCache::Empty),
        RouteEvent::Spawned { ok: true },
        RouteEvent::Replied { ok: true },
    ]);
    assert_eq!(route.spawns, 1);
    assert_eq!(
        actions.last(),
        Some(&RouteAction::Finish { by: BackendKind::Daemon, ok: true, keep_new: true })
    );
}

#[test]
fn failed_cached_daemon_is_respawned_once_then_one_shot() {
    let (route, actions) = run(&[
        RouteEvent::EditorCacheIs(EditorCache::Stale),
        RouteEvent::Connected { ok: false },
        RouteEvent::DaemonCacheIs(DaemonCache::Serving),
        RouteEvent::Replied { ok: false },
        RouteEvent::Spawned { ok: true },
        RouteEvent::Replied { ok: false },
        RouteEvent::Replied { ok: false },
    ]);
    assert_eq!(actions[1], RouteAction::ConnectEditor { drop_cached: true });
    assert_eq!(actions[4], RouteAction::SpawnDaemon { release: DaemonRelease::Drop });
    assert_eq!(actions[6], RouteAction::RunOneShot);
    assert_eq!(
        actions[7],
        RouteAction::Finish { by: BackendKind::OneShot, ok: false, keep_new: false }
    );
    assert_eq!(route.spawns, 1);
}

#[test]
fn stale_daemon_is_shut_down_before_spawning() {
    let (_, actions) = run(&[
        RouteEvent::EditorCacheIs(EditorCache::Empty),
        RouteEvent::Connected { ok: false },
        RouteEvent::DaemonCacheIs(DaemonCache::Stale),
        RouteEvent::Spawned { ok: false },
        RouteEvent::Replied { ok: true },
    ]);
    assert_eq!(actions[3], RouteAction::SpawnDaemon { release: DaemonRelease::Shutdown });
    assert_eq!(actions[4], RouteAction::RunOneShot);
    assert_eq!(
        actions[5],
        RouteAction::Finish { by: BackendKind::OneShot, ok: true, keep_new: false }
    );
}

#[test]
fn unexpected_events_are_ignored() {
    let (route, first) = Route::begin(false);
    let (same, a) = route.step(RouteEvent::Spawned { ok: true });
    assert_eq!(first, RouteAction::CheckEditor);
    assert_eq!(a, RouteAction::Ignore);
    assert_eq!(same, route);
}

#[test]
fn new_editor_is_verified_before_the_operation_is_sent() {
    let (route, actions) = run(&[
        RouteEvent::EditorCacheIs(EditorCache::Empty),
        RouteEvent::Connected { ok: true },
        RouteEvent::IdentityIs(EditorIdentity::Matches),
        RouteEvent::Replied { ok: true },
    ]);
    assert!(route.is_finished());
    assert_eq!(
        actions,
        vec![
            RouteAction::CheckEditor,
            RouteAction::ConnectEditor { drop_cached: false },
            RouteAction::VerifyEditor,
            RouteAction::SendToNewEditor,
            RouteAction::Finish { by: BackendKind::Editor, ok: true, keep_new: true },
        ]
    );
}

#[test]
fn editor_of_another_project_gets_only_the_identity_ping() {
    let (route, actions) = run(&[
        RouteEvent::EditorCacheIs(EditorCache::Stale),
        RouteEvent::Connected { ok: true },
        RouteEvent::IdentityIs(EditorIdentity::Foreign),
    ]);
    assert!(route.is_finished());
    assert_eq!(
        actions.last(),
        Some(&RouteAction::Fail { reason: RouteFailure::ForeignProject, drop_cached: false })
    );
    assert!(!actions.contains(&RouteAction::SendToNewEditor));
    assert!(!actions.contains(&RouteAction::CheckDaemon));
}

#[test]
fn fresh_editor_failure_after_dispatch_is_an_unknown_outcome() {
    let (route, actions) = run(&[
        RouteEvent::EditorCacheIs(EditorCache::Empty),
        RouteEvent::Connected { ok: true },
        RouteEvent::IdentityIs(EditorIdentity::Matches),
        RouteEvent::Replied { ok: false },
    ]);
    assert!(route.is_finished());
    assert_eq!(
        actions.last(),
        Some(&RouteAction::Fail { reason: RouteFailure::UnknownOutcome, drop_cached: false })
    );
    assert_eq!(route.spawns, 0);
    // Whatever is reported afterwards, nothing more happens.
    let (same, a) = route.step(RouteEvent::Connected { ok: true });
    assert_eq!(a, RouteAction::Ignore);
    assert_eq!(same, route);
}

#[test]
fn cached_editor_failure_after_dispatch_is_an_unknown_outcome() {
    let (route, actions) = run(&[
        RouteEvent::EditorCacheIs(EditorCache::Verified),
        RouteEvent::Replied { ok: false },
    ]);
    assert!(route.is_finished());
    assert_eq!(
        actions,
        vec![
            RouteAction::CheckEditor,
            RouteAction::SendToCachedEditor,
            RouteAction::Fail { reason: RouteFailure::UnknownOutcome, drop_cached: true },
        ]
    );
}

#[test]
fn silent_identity_ping_falls_through_to_the_daemon() {
    let (_, actions) = run(&[
        RouteEvent::EditorCacheIs(EditorCache::Empty),
        RouteEvent::Connected { ok: true },
        RouteEvent::IdentityIs(EditorIdentity::NoAnswer),
    ]);
    assert_eq!(actions.last(), Some(&RouteAction::CheckDaemon));
}

#[test]
fn editor_only_route_requires_a_reachable_editor() {
    let (route, actions) = run_with(true, &[
        RouteEvent::EditorCacheIs(EditorCache::Empty),
        RouteEvent::Connected { ok: false },
    ]);
    assert!(route.is_finished());
    assert_eq!(
        actions.last(),
        Some(&RouteAction::Fail { reason: RouteFailure::EditorRequired, drop_cached: false })
    );
    let (_, silent) = run_with(true, &[
        RouteEvent::EditorCacheIs(EditorCache::Stale),
        RouteEvent::Connected { ok: true },
        RouteEvent::IdentityIs(EditorIdentity::NoAnswer),
    ]);
    assert_eq!(
        silent.last(),
        Some(&RouteAction::Fail { reason: RouteFailure::EditorRequired, drop_cached: false })
    );
}

#[test]
fn editor_only_failure_after_dispatch_is_not_replayed() {
    let (route, actions) = run_with(true, &[
        RouteEvent::EditorCacheIs(EditorCache::Empty),
        RouteEvent::Connected { ok: true },
        RouteEvent::IdentityIs(EditorIdentity::Matches),
        RouteEvent::Replied { ok: false },
    ]);
    assert!(route.is_finished());
    assert_eq!(
        actions.last(),
        Some(&RouteAction::Fail { reason: RouteFailure::UnknownOutcome, drop_cached: false })
    );
}

#[test]
fn routing_failure_messages() {
    let unknown = unknown_outcome_message("node_set_properties");
    assert!(unknown.contains("unknown outcome"));
    assert!(unknown.contains("node_set_properties"));
    let required = editor_required_message("editor_run");
    assert!(required.contains("requires the Godot editor"));
    assert!(required.contains("no headless backend was started"));
    assert_eq!(
        foreign_project_message("/work/game", "/work/other"),
        "the Godot editor on this port serves the project '/work/other', not '/work/game'"
    );
}
