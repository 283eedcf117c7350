use vstd::prelude::*;

verus! {

/// Where an operation was served.
#[derive(Debug, Clone, Copy, PartialEq, Eq, Structural)]
pub enum BackendKind {
    /// The editor plugin of a running Godot editor.
    Editor,
    /// The persistent headless daemon.
    Daemon,
    /// A one-shot headless Godot process.
    OneShot,
}

/// What the editor connection cache holds when an operation begins.
#[derive(Debug, Clone, Copy, PartialEq, Eq, Structural)]
pub enum EditorCache {
    Empty,
    /// A handle that cannot serve this operation: its socket is closed, or
    /// it was verified for another project or on another port.
    Stale,
    /// An open handle verified for this operation's project on the port
    /// that the project selects now.
    Verified,
}

/// What the identity ping on a new editor connection found.
#[derive(Debug, Clone, Copy, PartialEq, Eq, Structural)]
pub enum EditorIdentity {
    /// The editor serves the project of this operation.
    Matches,
    /// The editor serves another project.
    Foreign,
    /// The ping got no answer.
    NoAnswer,
}

/// What the daemon cache holds when the daemon is considered.
#[derive(Debug, Clone, Copy, PartialEq, Eq, Structural)]
pub enum DaemonCache {
    Empty,
    /// A live daemon spawned for the project of this operation.
    Serving,
    /// A daemon for another project, or one that has exited.
    Stale,
}

/// What happens to the cached daemon before a new one is spawned.
#[derive(Debug, Clone, Copy, PartialEq, Eq, Structural)]
pub enum DaemonRelease {
    /// There is none.
    Nothing,
    /// Ask it to quit and wait for it (it belongs to another project or is dead).
    Shutdown,
    /// Drop it, which kills it (it failed to answer).
    Drop,
}

/// Why an operation ends without a result.
#[derive(Debug, Clone, Copy, PartialEq, Eq, Structural)]
pub enum RouteFailure {
    /// The operation went to the editor, which gave no answer: whether it
    /// took effect is unknown, so it is neither sent again nor sent elsewhere.
    UnknownOutcome,
    /// The editor on the selected port serves another project.
    ForeignProject,
    /// The operation needs the editor, which is not reachable.
    EditorRequired,
}

/// Where the routing of one operation stands.
#[derive(Debug, Clone, Copy, PartialEq, Eq, Structural)]
pub enum RoutePhase {
    EditorCheck,
    EditorCachedSent,
    EditorConnecting,
    EditorVerifying,
    EditorFreshSent,
    DaemonCheck,
    DaemonCachedSent,
    DaemonSpawning,
    DaemonFreshSent,
    OneShotRunning,
    Finished,
}

/// What the caller reports after performing the last action.
#[derive(Debug, Clone, Copy, PartialEq, Eq, Structural)]
pub enum RouteEvent {
    EditorCacheIs(EditorCache),
    DaemonCacheIs(DaemonCache),
    /// A send of the operation to a backend, or the one-shot run, came back
    /// (`ok` when it produced an operation result).
    Replied { ok: bool },
    Connected { ok: bool },
    IdentityIs(EditorIdentity),
    Spawned { ok: bool },
}

/// What the caller does next.
#[derive(Debug, Clone, Copy, PartialEq, Eq, Structural)]
pub enum RouteAction {
    /// Look at the cached editor connection and report it.
    CheckEditor,
    SendToCachedEditor,
    /// Open a new editor connection (forgetting the cached one first when
    /// `drop_cached`).
    ConnectEditor { drop_cached: bool },
    /// Ask the new editor connection which project it serves.
    VerifyEditor,
    SendToNewEditor,
    /// Look at the cached daemon and report it.
    CheckDaemon,
    SendToCachedDaemon,
    /// Release the cached daemon as told, then spawn a new one.
    SpawnDaemon { release: DaemonRelease },
    SendToNewDaemon,
    /// Run the operation in a one-shot process.
    RunOneShot,
    /// Return the last reply. `keep_new` caches the connection or daemon
    /// that was made for this operation.
    Finish { by: BackendKind, ok: bool, keep_new: bool },
    /// End with this failure (forgetting the cached editor connection first
    /// when `drop_cached`).
    Fail { reason: RouteFailure, drop_cached: bool },
    /// The event does not belong to this phase; nothing changes.
    Ignore,
}

/// The routing of one operation: editor plugin, then daemon, then one-shot;
/// or, for an operation that only the editor can serve, the editor alone.
#[derive(Debug, Clone, Copy, PartialEq, Eq, Structural)]
pub struct Route {
    pub phase: RoutePhase,
    /// Daemons spawned for this operation.
    pub spawns: u8,
    /// The operation needs the editor: no daemon and no one-shot process.
    pub editor_only: bool,
}

/// The route before anything was tried, and its first action.
pub open spec fn spec_route_begin(editor_only: bool) -> (Route, RouteAction) {
    (Route { phase: RoutePhase::EditorCheck, spawns: 0, editor_only }, RouteAction::CheckEditor)
}

/// Where the route goes when the editor cannot be used: the daemon, or for
/// an editor-only operation the end, with the editor required.
pub open spec fn spec_editor_unavailable(r: Route) -> (Route, RouteAction) {
    if r.editor_only {
        (
            Route { phase: RoutePhase::Finished, ..r },
            RouteAction::Fail { reason: RouteFailure::EditorRequired, drop_cached: false },
        )
    } else {
        (Route { phase: RoutePhase::DaemonCheck, ..r }, RouteAction::CheckDaemon)
    }
}

/// One step of the routing.
pub open spec fn spec_route_step(r: Route, e: RouteEvent) -> (Route, RouteAction) {
    let to = |p: RoutePhase| Route { phase: p, ..r };
    match (r.phase, e) {
        (RoutePhase::EditorCheck, RouteEvent::EditorCacheIs(c)) => match c {
            EditorCache::Verified => (to(RoutePhase::EditorCachedSent), RouteAction::SendToCachedEditor),
            EditorCache::Stale => (
                to(RoutePhase::EditorConnecting),
                RouteAction::ConnectEditor { drop_cached: true },
            ),
            EditorCache::Empty => (
                to(RoutePhase::EditorConnecting),
                RouteAction::ConnectEditor { drop_cached: false },
            ),
        },
        (RoutePhase::EditorCachedSent, RouteEvent::Replied { ok }) => if ok {
            (
                to(RoutePhase::Finished),
                RouteAction::Finish { by: BackendKind::Editor, ok: true, keep_new: false },
            )
        } else {
            (
                to(RoutePhase::Finished),
                RouteAction::Fail { reason: RouteFailure::UnknownOutcome, drop_cached: true },
            )
        },
        (RoutePhase::EditorConnecting, RouteEvent::Connected { ok }) => if ok {
            (to(RoutePhase::EditorVerifying), RouteAction::VerifyEditor)
        } else {
            spec_editor_unavailable(r)
        },
        (RoutePhase::EditorVerifying, RouteEvent::IdentityIs(i)) => match i {
            EditorIdentity::Matches => (to(RoutePhase::EditorFreshSent), RouteAction::SendToNewEditor),
            EditorIdentity::Foreign => (
                to(RoutePhase::Finished),
                RouteAction::Fail { reason: RouteFailure::ForeignProject, drop_cached: false },
            ),
            EditorIdentity::NoAnswer => spec_editor_unavailable(r),
        },
        (RoutePhase::EditorFreshSent, RouteEvent::Replied { ok }) => if ok {
            (
                to(RoutePhase::Finished),
                RouteAction::Finish { by: BackendKind::Editor, ok: true, keep_new: true },
            )
        } else {
            (
                to(RoutePhase::Finished),
                RouteAction::Fail { reason: RouteFailure::UnknownOutcome, drop_cached: false },
            )
        },
        (RoutePhase::DaemonCheck, RouteEvent::DaemonCacheIs(c)) => match c {
            DaemonCache::Serving => (to(RoutePhase::DaemonCachedSent), RouteAction::SendToCachedDaemon),
            DaemonCache::Stale => (
                to(RoutePhase::DaemonSpawning),
                RouteAction::SpawnDaemon { release: DaemonRelease::Shutdown },
            ),
            DaemonCache::Empty => (
                to(RoutePhase::DaemonSpawning),
                RouteAction::SpawnDaemon { release: DaemonRelease::Nothing },
            ),
        },
        (RoutePhase::DaemonCachedSent, RouteEvent::Replied { ok }) => if ok {
            (
                to(RoutePhase::Finished),
                RouteAction::Finish { by: BackendKind::Daemon, ok: true, keep_new: false },
            )
        } else {
            (
                to(RoutePhase::DaemonSpawning),
                RouteAction::SpawnDaemon { release: DaemonRelease::Drop },
            )
        },
        (RoutePhase::DaemonSpawning, RouteEvent::Spawned { ok }) => {
            let spawned = Route { spawns: (r.spawns + 1) as u8, ..r };
            if ok {
                (
                    Route { phase: RoutePhase::DaemonFreshSent, ..spawned },
                    RouteAction::SendToNewDaemon,
                )
            } else {
                (Route { phase: RoutePhase::OneShotRunning, ..spawned }, RouteAction::RunOneShot)
            }
        },
        (RoutePhase::DaemonFreshSent, RouteEvent::Replied { ok }) => if ok {
            (
                to(RoutePhase::Finished),
                RouteAction::Finish { by: BackendKind::Daemon, ok: true, keep_new: true },
            )
        } else {
            (to(RoutePhase::OneShotRunning), RouteAction::RunOneShot)
        },
        (RoutePhase::OneShotRunning, RouteEvent::Replied { ok }) => (
            to(RoutePhase::Finished),
            RouteAction::Finish { by: BackendKind::OneShot, ok, keep_new: false },
        ),
        _ => (r, RouteAction::Ignore),
    }
}

/// The route after the events `es`, from the beginning.
pub open spec fn spec_route_run(editor_only: bool, es: Seq<RouteEvent>) -> Route
    decreases es.len(),
{
    if es.len() == 0 {
        spec_route_begin(editor_only).0
    } else {
        spec_route_step(spec_route_run(editor_only, es.drop_last()), es.last()).0
    }
}

/// How many steps at most remain from a phase.
pub open spec fn spec_phase_rank(p: RoutePhase) -> nat {
    match p {
        RoutePhase::EditorCheck => 10,
        RoutePhase::EditorCachedSent => 9,
        RoutePhase::EditorConnecting => 8,
        RoutePhase::EditorVerifying => 7,
        RoutePhase::EditorFreshSent => 6,
        RoutePhase::DaemonCheck => 5,
        RoutePhase::DaemonCachedSent => 4,
        RoutePhase::DaemonSpawning => 3,
        RoutePhase::DaemonFreshSent => 2,
        RoutePhase::OneShotRunning => 1,
        RoutePhase::Finished => 0,
    }
}

/// The phases in which the operation has gone out to the editor.
pub open spec fn spec_sent_to_editor(p: RoutePhase) -> bool {
    p == RoutePhase::EditorCachedSent || p == RoutePhase::EditorFreshSent
}

/// The phases of the daemon and one-shot paths.
pub open spec fn spec_headless_phase(p: RoutePhase) -> bool {
    1 <= spec_phase_rank(p) <= 5
}

/// What every reachable route satisfies: no daemon was spawned before the
/// spawning phase, and at most one after it; an editor-only route never
/// reaches the daemon or the one-shot process.
pub open spec fn spec_route_inv(r: Route) -> bool {
    &&& r.spawns <= 1
    &&& spec_phase_rank(r.phase) >= 3 ==> r.spawns == 0
    &&& r.editor_only ==> !spec_headless_phase(r.phase)
}

impl Route {
    /// Start routing an operation (one that only the editor can serve when
    /// `editor_only`); the first action is to look at the editor connection.
    pub fn begin(editor_only: bool) -> (res: (Route, RouteAction))
        ensures
            res == spec_route_begin(editor_only),
    {
        (Route { phase: RoutePhase::EditorCheck, spawns: 0, editor_only }, RouteAction::CheckEditor)
    }

    /// Whether the operation has its answer.
    pub fn is_finished(&self) -> (b: bool)
        ensures
            b == (self.phase == RoutePhase::Finished),
    {
        match self.phase {
            RoutePhase::Finished => true,
            _ => false,
        }
    }

    /// Where the route goes when the editor cannot be used.
    fn editor_unavailable(self) -> (res: (Route, RouteAction))
        ensures
            res == spec_editor_unavailable(self),
    {
        if self.editor_only {
            (
                Route { phase: RoutePhase::Finished, ..self },
                RouteAction::Fail { reason: RouteFailure::EditorRequired, drop_cached: false },
            )
        } else {
            (Route { phase: RoutePhase::DaemonCheck, ..self }, RouteAction::CheckDaemon)
        }
    }

    /// Advance on the report `e` of the last action.
    pub fn step(self, e: RouteEvent) -> (res: (Route, RouteAction))
        requires
            self.spawns < 255,
        ensures
            res == spec_route_step(self, e),
    {
        let to = |p: RoutePhase| -> (q: Route)
            ensures
                q == (Route { phase: p, ..self }),
            { Route { phase: p, ..self } };
        match (self.phase, e) {
            (RoutePhase::EditorCheck, RouteEvent::EditorCacheIs(c)) => match c {
                EditorCache::Verified => (
                    to(RoutePhase::EditorCachedSent),
                    RouteAction::SendToCachedEditor,
                ),
                EditorCache::Stale => (
                    to(RoutePhase::EditorConnecting),
                    RouteAction::ConnectEditor { drop_cached: true },
                ),
                EditorCache::Empty => (
                    to(RoutePhase::EditorConnecting),
                    RouteAction::ConnectEditor { drop_cached: false },
                ),
            },
            (RoutePhase::EditorCachedSent, RouteEvent::Replied { ok }) => if ok {
                (
                    to(RoutePhase::Finished),
                    RouteAction::Finish { by: BackendKind::Editor, ok: true, keep_new: false },
                )
            } else {
                (
                    to(RoutePhase::Finished),
                    RouteAction::Fail { reason: RouteFailure::UnknownOutcome, drop_cached: true },
                )
            },
            (RoutePhase::EditorConnecting, RouteEvent::Connected { ok }) => if ok {
                (to(RoutePhase::EditorVerifying), RouteAction::VerifyEditor)
            } else {
                self.editor_unavailable()
            },
            (RoutePhase::EditorVerifying, RouteEvent::IdentityIs(i)) => match i {
                EditorIdentity::Matches => (
                    to(RoutePhase::EditorFreshSent),
                    RouteAction::SendToNewEditor,
                ),
                EditorIdentity::Foreign => (
                    to(RoutePhase::Finished),
                    RouteAction::Fail { reason: RouteFailure::ForeignProject, drop_cached: false },
                ),
                EditorIdentity::NoAnswer => self.editor_unavailable(),
            },
            (RoutePhase::EditorFreshSent, RouteEvent::Replied { ok }) => if ok {
                (
                    to(RoutePhase::Finished),
                    RouteAction::Finish { by: BackendKind::Editor, ok: true, keep_new: true },
                )
            } else {
                (
                    to(RoutePhase::Finished),
                    RouteAction::Fail { reason: RouteFailure::UnknownOutcome, drop_cached: false },
                )
            },
            (RoutePhase::DaemonCheck, RouteEvent::DaemonCacheIs(c)) => match c {
                DaemonCache::Serving => (
                    to(RoutePhase::DaemonCachedSent),
                    RouteAction::SendToCachedDaemon,
                ),
                DaemonCache::Stale => (
                    to(RoutePhase::DaemonSpawning),
                    RouteAction::SpawnDaemon { release: DaemonRelease::Shutdown },
                ),
                DaemonCache::Empty => (
                    to(RoutePhase::DaemonSpawning),
                    RouteAction::SpawnDaemon { release: DaemonRelease::Nothing },
                ),
            },
            (RoutePhase::DaemonCachedSent, RouteEvent::Replied { ok }) => if ok {
                (
                    to(RoutePhase::Finished),
                    RouteAction::Finish { by: BackendKind::Daemon, ok: true, keep_new: false },
                )
            } else {
                (
                    to(RoutePhase::DaemonSpawning),
                    RouteAction::SpawnDaemon { release: DaemonRelease::Drop },
                )
            },
            (RoutePhase::DaemonSpawning, RouteEvent::Spawned { ok }) => {
                let n = self.spawns + 1;
                if ok {
                    (
                        Route { phase: RoutePhase::DaemonFreshSent, spawns: n, ..self },
                        RouteAction::SendToNewDaemon,
                    )
                } else {
                    (
                        Route { phase: RoutePhase::OneShotRunning, spawns: n, ..self },
                        RouteAction::RunOneShot,
                    )
                }
            },
            (RoutePhase::DaemonFreshSent, RouteEvent::Replied { ok }) => if ok {
                (
                    to(RoutePhase::Finished),
                    RouteAction::Finish { by: BackendKind::Daemon, ok: true, keep_new: true },
                )
            } else {
                (to(RoutePhase::OneShotRunning), RouteAction::RunOneShot)
            },
            (RoutePhase::OneShotRunning, RouteEvent::Replied { ok }) => (
                to(RoutePhase::Finished),
                RouteAction::Finish { by: BackendKind::OneShot, ok, keep_new: false },
            ),
            _ => (self, RouteAction::Ignore),
        }
    }
}

/// Every event either leaves the route as it is (and is ignored) or moves
/// it strictly closer to its end, so an operation is routed in at most ten
/// steps; the invariant holds throughout.
pub proof fn lemma_route_step_progress(r: Route, e: RouteEvent)
    requires
        spec_route_inv(r),
    ensures
        ({
            let (q, a) = spec_route_step(r, e);
            &&& spec_route_inv(q)
            &&& (a == RouteAction::Ignore <==> q == r)
            &&& (a != RouteAction::Ignore ==> spec_phase_rank(q.phase) < spec_phase_rank(r.phase))
        }),
{
}

/// Along any sequence of reports, the route keeps its invariant: at most one
/// daemon is spawned per operation, and an editor-only operation never
/// reaches the daemon or the one-shot process.
pub proof fn lemma_route_run_inv(editor_only: bool, es: Seq<RouteEvent>)
    ensures
        spec_route_inv(spec_route_run(editor_only, es)),
        spec_route_run(editor_only, es).spawns <= 1,
        spec_route_run(editor_only, es).editor_only == editor_only,
        editor_only ==> !spec_headless_phase(spec_route_run(editor_only, es).phase),
    decreases es.len(),
{
    if es.len() > 0 {
        lemma_route_run_inv(editor_only, es.drop_last());
        lemma_route_step_progress(spec_route_run(editor_only, es.drop_last()), es.last());
    }
}

/// Once the operation has gone out to the editor, the next report ends the
/// route: with the editor's result, or, when no result came back, with an
/// unknown outcome. It is never sent again, to the editor or elsewhere, and
/// nothing is connected or spawned.
pub proof fn lemma_no_replay_after_dispatch(r: Route, e: RouteEvent)
    requires
        spec_sent_to_editor(r.phase),
    ensures
        ({
            let (q, a) = spec_route_step(r, e);
            &&& (q.phase == RoutePhase::Finished || q == r)
            &&& (e == RouteEvent::Replied { ok: false } ==> a matches RouteAction::Fail {
                reason: RouteFailure::UnknownOutcome,
                ..
            })
            &&& (e == RouteEvent::Replied { ok: true } ==> a matches RouteAction::Finish {
                by: BackendKind::Editor,
                ok: true,
                ..
            })
        }),
{
}

/// A finished route stays finished and does nothing more.
pub proof fn lemma_finished_is_final(r: Route, e: RouteEvent)
    requires
        r.phase == RoutePhase::Finished,
    ensures
        spec_route_step(r, e) == (r, RouteAction::Ignore),
{
}

/// Along any sequence of reports, once the operation has gone out to the
/// editor the route stays in that phase or has finished: no later report
/// leads to another send, a connection, the daemon or a one-shot process.
pub proof fn lemma_dispatch_is_last_send(editor_only: bool, es: Seq<RouteEvent>, k: int)
    requires
        0 <= k <= es.len(),
        spec_sent_to_editor(spec_route_run(editor_only, es.take(k)).phase),
    ensures
        ({
            let p = spec_route_run(editor_only, es).phase;
            p == spec_route_run(editor_only, es.take(k)).phase || p == RoutePhase::Finished
        }),
    decreases es.len() - k,
{
    if k < es.len() {
        let before = spec_route_run(editor_only, es.take(k));
        let next = spec_route_run(editor_only, es.take(k + 1));
        assert(es.take(k + 1).drop_last() =~= es.take(k));
        assert(es.take(k + 1).last() == es[k]);
        lemma_no_replay_after_dispatch(before, es[k]);
        if next.phase == RoutePhase::Finished {
            lemma_finished_stays(editor_only, es, k + 1);
        } else {
            lemma_dispatch_is_last_send(editor_only, es, k + 1);
        }
    } else {
        assert(es.take(k) =~= es);
    }
}

/// A route that has finished after some reports is still finished after
/// any further ones.
pub proof fn lemma_finished_stays(editor_only: bool, es: Seq<RouteEvent>, k: int)
    requires
        0 <= k <= es.len(),
        spec_route_run(editor_only, es.take(k)).phase == RoutePhase::Finished,
    ensures
        spec_route_run(editor_only, es).phase == RoutePhase::Finished,
    decreases es.len() - k,
{
    if k < es.len() {
        assert(es.take(k + 1).drop_last() =~= es.take(k));
        assert(es.take(k + 1).last() == es[k]);
        lemma_finished_is_final(spec_route_run(editor_only, es.take(k)), es[k]);
        lemma_finished_stays(editor_only, es, k + 1);
    } else {
        assert(es.take(k) =~= es);
    }
}

/// The operation goes to a new editor connection only after the identity
/// ping found the editor serving this operation's project; an editor that
/// serves another project ends the route with that failure.
pub proof fn lemma_identity_before_send(r: Route, e: RouteEvent)
    ensures
        spec_route_step(r, e).1 == RouteAction::SendToNewEditor ==> (r.phase
            == RoutePhase::EditorVerifying && e == RouteEvent::IdentityIs(EditorIdentity::Matches)),
        r.phase == RoutePhase::EditorVerifying && e == RouteEvent::IdentityIs(EditorIdentity::Foreign)
            ==> spec_route_step(r, e).1 == (RouteAction::Fail {
            reason: RouteFailure::ForeignProject,
            drop_cached: false,
        }),
{
}

/// Only the one-shot fallback can finish with a failed result; the editor
/// and the daemon finish only with a reply, and the routing's own failures
/// come only from the editor phases.
pub proof fn lemma_only_oneshot_fails(r: Route, e: RouteEvent)
    ensures
        ({
            let a = spec_route_step(r, e).1;
            &&& (a matches RouteAction::Finish { by, ok, .. } ==> (ok || by == BackendKind::OneShot))
            &&& (a is Fail ==> spec_phase_rank(r.phase) >= 6)
        }),
{
}

/// A one-shot process is started only after the daemon path has failed:
/// after a failed spawn, or after a fresh daemon failed to answer.
pub proof fn lemma_oneshot_after_daemon(r: Route, e: RouteEvent)
    ensures
        spec_route_step(r, e).1 == RouteAction::RunOneShot ==> (
            (r.phase == RoutePhase::DaemonSpawning && e == RouteEvent::Spawned { ok: false })
            || (r.phase == RoutePhase::DaemonFreshSent && e == RouteEvent::Replied { ok: false })),
{
}

/// The daemon is considered only when the operation never went to the
/// editor: no editor could be connected, or the new connection did not
/// answer the identity ping; and never for an editor-only operation, which
/// then ends with the editor required.
pub proof fn lemma_daemon_after_editor(r: Route, e: RouteEvent)
    ensures
        (spec_route_step(r, e).1 == RouteAction::CheckDaemon ==> !r.editor_only && (
            (r.phase == RoutePhase::EditorConnecting && e == (RouteEvent::Connected { ok: false }))
            || (r.phase == RoutePhase::EditorVerifying && e == RouteEvent::IdentityIs(
                EditorIdentity::NoAnswer,
            )))),
        (r.editor_only && r.phase == RoutePhase::EditorConnecting && e == (RouteEvent::Connected {
            ok: false,
        }) ==> spec_route_step(r, e).1 == (RouteAction::Fail {
            reason: RouteFailure::EditorRequired,
            drop_cached: false,
        })),
{
}

/// A connection or daemon is kept for later operations exactly when it was
/// made for this one and answered it.
pub proof fn lemma_keep_only_fresh(r: Route, e: RouteEvent)
    ensures
        ({
            let a = spec_route_step(r, e).1;
            a matches RouteAction::Finish { keep_new, .. } ==> (keep_new <==> (
                (r.phase == RoutePhase::EditorFreshSent || r.phase == RoutePhase::DaemonFreshSent)
                && e == RouteEvent::Replied { ok: true }))
        }),
{
}

/// The failure when the editor gave no answer to an operation it was sent.
pub fn unknown_outcome_message(operation: &str) -> (m: String)
    ensures
        m@ == "the Godot editor gave no answer to '"@ + operation@
            + "' after it was sent: unknown outcome; it was not sent again"@,
{
    let mut m = String::from_str("the Godot editor gave no answer to '");
    m.append(operation);
    m.append("' after it was sent: unknown outcome; it was not sent again");
    m
}

/// The failure when the operation needs the editor and none is reachable.
pub fn editor_required_message(operation: &str) -> (m: String)
    ensures
        m@ == "'"@ + operation@
            + "' requires the Godot editor, which is not reachable; no headless backend was started"@,
{
    let mut m = String::from_str("'");
    m.append(operation);
    m.append("' requires the Godot editor, which is not reachable; no headless backend was started");
    m
}

/// The failure when the editor on the selected port serves another project.
pub fn foreign_project_message(requested: &str, actual: &str) -> (m: String)
    ensures
        m@ == "the Godot editor on this port serves the project '"@ + actual@ + "', not '"@
            + requested@ + "'"@,
{
    let mut m = String::from_str("the Godot editor on this port serves the project '");
    m.append(actual);
    m.append("', not '");
    m.append(requested);
    m.append("'");
    m
}

} // verus!
