use vstd::prelude::*;
use crate::connection_state::{spec_is_advancing, spec_tick_advance, ConnectionAction, ConnectionState};
use crate::text::{spec_starts_with, starts_with, str_eq};

verus! {

broadcast use vstd::string::group_string_axioms;

/// The server's status as the editor dock shows it: `connected` once the
/// handshake completed, else `waiting` while listening, else `stopped`.
pub fn connection_status(handshake_completed: bool, listening: bool) -> (s: &'static str)
    ensures
        s@ == (if handshake_completed {
            "connected"@
        } else if listening {
            "waiting"@
        } else {
            "stopped"@
        }),
{
    if handshake_completed {
        "connected"
    } else if listening {
        "waiting"
    } else {
        "stopped"
    }
}

/// The dimension code sent in the handshake: 2 for a scene with only 2D
/// nodes, 0 for one with both, 3 otherwise (3D, or no spatial node).
pub fn scene_dimensions_code(has_2d: bool, has_3d: bool) -> (code: u32)
    ensures
        code == (if has_2d && !has_3d {
            2u32
        } else if has_2d && has_3d {
            0u32
        } else {
            3u32
        }),
{
    match (has_2d, has_3d) {
        (true, false) => 2,
        (false, true) => 3,
        (true, true) => 0,
        (false, false) => 3,
    }
}

/// Where a query from the server goes.
#[derive(Debug, Clone, PartialEq, Eq)]
pub enum QueryRoute {
    /// The recorder answers `recording_*` and `dashcam_*` methods.
    Recorder,
    /// The collector answers the scene queries.
    Collector,
    /// Answer with this error code and message.
    Refuse { code: String, message: String },
}

/// The methods that the recorder answers.
pub open spec fn spec_is_recorder_method(method: Seq<char>) -> bool {
    spec_starts_with(method, "recording_"@) || spec_starts_with(method, "dashcam_"@)
}

/// Route a query by its method name and by which handlers are wired in.
pub fn route_query(method: &str, has_recorder: bool, has_collector: bool) -> (r: QueryRoute)
    ensures
        spec_is_recorder_method(method@) && has_recorder ==> r == QueryRoute::Recorder,
        spec_is_recorder_method(method@) && !has_recorder ==> (r matches QueryRoute::Refuse {
            code,
            message,
        } && code@ == "internal_error"@ && message@ == "Recorder not available"@),
        !spec_is_recorder_method(method@) && has_collector ==> r == QueryRoute::Collector,
        !spec_is_recorder_method(method@) && !has_collector ==> (r matches QueryRoute::Refuse {
            code,
            message,
        } && code@ == "scene_not_loaded"@ && message@ == "Collector not available"@),
{
    if starts_with(method, "recording_") || starts_with(method, "dashcam_") {
        if has_recorder {
            QueryRoute::Recorder
        } else {
            QueryRoute::Refuse {
                code: String::from_str("internal_error"),
                message: String::from_str("Recorder not available"),
            }
        }
    } else if has_collector {
        QueryRoute::Collector
    } else {
        QueryRoute::Refuse {
            code: String::from_str("scene_not_loaded"),
            message: String::from_str("Collector not available"),
        }
    }
}

/// The kinds of read failure that the server tells apart.
#[derive(Debug, Clone, Copy, PartialEq, Eq, Structural)]
pub enum ReadErrorKind {
    WouldBlock,
    TimedOut,
    UnexpectedEof,
    ConnectionReset,
    /// Any other I/O error, or a message that could not be decoded.
    Other,
}

/// What a failed read means for the connection.
#[derive(Debug, Clone, Copy, PartialEq, Eq, Structural)]
pub enum ReadOutcome {
    /// No data yet: keep the client.
    Idle,
    /// The client went away: drop it quietly.
    ClientLeft,
    /// Report the error and drop the client.
    Failed,
}

pub fn classify_read_error(kind: ReadErrorKind) -> (r: ReadOutcome)
    ensures
        r == (match kind {
            ReadErrorKind::WouldBlock | ReadErrorKind::TimedOut => ReadOutcome::Idle,
            ReadErrorKind::UnexpectedEof | ReadErrorKind::ConnectionReset => ReadOutcome::ClientLeft,
            ReadErrorKind::Other => ReadOutcome::Failed,
        }),
{
    match kind {
        ReadErrorKind::WouldBlock | ReadErrorKind::TimedOut => ReadOutcome::Idle,
        ReadErrorKind::UnexpectedEof | ReadErrorKind::ConnectionReset => ReadOutcome::ClientLeft,
        ReadErrorKind::Other => ReadOutcome::Failed,
    }
}

/// An `activity_log` event as the editor dock receives it.
#[derive(Debug, Clone, PartialEq, Eq)]
pub struct ActivityEntry {
    pub entry_type: String,
    pub summary: String,
    pub tool_name: String,
    /// The server's watch count, or -1 when the event does not carry one.
    pub active_watches: i64,
}

/// Fill an activity entry from the fields the event carries: the type
/// defaults to `query`, summary and tool to empty, the watch count to -1.
pub fn activity_entry(
    entry_type: Option<&str>,
    summary: Option<&str>,
    tool: Option<&str>,
    active_watches: Option<i64>,
) -> (e: ActivityEntry)
    ensures
        e.entry_type@ == (match entry_type {
            Some(t) => t@,
            None => "query"@,
        }),
        e.summary@ == (match summary {
            Some(t) => t@,
            None => ""@,
        }),
        e.tool_name@ == (match tool {
            Some(t) => t@,
            None => ""@,
        }),
        e.active_watches == (match active_watches {
            Some(n) => n,
            None => -1i64,
        }),
{
    ActivityEntry {
        entry_type: String::from_str(
            match entry_type {
                Some(t) => t,
                None => "query",
            },
        ),
        summary: String::from_str(
            match summary {
                Some(t) => t,
                None => "",
            },
        ),
        tool_name: String::from_str(
            match tool {
                Some(t) => t,
                None => "",
            },
        ),
        active_watches: match active_watches {
            Some(n) => n,
            None => -1,
        },
    }
}

/// What one poll of the server does.
#[derive(Debug, Clone, PartialEq, Eq)]
pub enum PollStep {
    /// A frame advance just finished: re-pause and answer this request.
    AnswerAdvance { response_id: String, frame: u64 },
    /// A frame advance is still running: take no new queries.
    Wait,
    /// No client: try to accept one, then read from it if one came.
    Accept,
    /// Read the next message from the client.
    Read,
}

/// One poll: tick the frame advance first; while it runs nothing else
/// happens; otherwise accept a client when there is none and read.
pub fn poll_step(conn: &mut ConnectionState, current_frame: u64, has_client: bool) -> (p: PollStep)
    ensures
        ({
            let (next, action) = spec_tick_advance(*old(conn), current_frame);
            &&& *final(conn) == next
            &&& match action {
                ConnectionAction::AdvanceComplete { response_id, frame } => p == PollStep::AnswerAdvance {
                    response_id,
                    frame,
                },
                _ => if spec_is_advancing(next) {
                    p == PollStep::Wait
                } else if has_client {
                    p == PollStep::Read
                } else {
                    p == PollStep::Accept
                },
            }
        }),
{
    match conn.tick_advance(current_frame) {
        ConnectionAction::AdvanceComplete { response_id, frame } => PollStep::AnswerAdvance {
            response_id,
            frame,
        },
        _ => if conn.is_advancing() {
            PollStep::Wait
        } else if has_client {
            PollStep::Read
        } else {
            PollStep::Accept
        },
    }
}

/// A frame advance that the action handler asked for and that the server
/// has not taken over yet.
#[derive(Debug, Default)]
pub struct AdvanceState {
    /// Physics frames still to advance.
    pub remaining: u32,
    /// The request that waits for the advance to finish.
    pub pending_id: Option<String>,
}

/// The request id handed over with an advance: the pending one, or empty.
pub open spec fn spec_pending_id(state: AdvanceState) -> Seq<char> {
    match state.pending_id {
        Some(id) => id@,
        None => seq![],
    }
}

/// After a deferred answer, the server takes the requested advance over
/// from the handler's state: when frames remain, the connection begins the
/// advance with the pending request (an empty id when none), and the
/// handler's state is emptied; otherwise nothing changes.
pub fn take_over_advance(state: &mut AdvanceState, conn: &mut ConnectionState)
    ensures
        old(state).remaining > 0 ==> {
            &&& final(state).remaining == 0
            &&& final(state).pending_id is None
            &&& final(conn).connected == old(conn).connected
            &&& final(conn).handshake_completed == old(conn).handshake_completed
            &&& if old(conn).advance_remaining > 0 {
                *final(conn) == *old(conn)
            } else {
                &&& final(conn).advance_remaining == old(state).remaining
                &&& final(conn).advance_request_id matches Some(id) && id@ == spec_pending_id(*old(state))
            }
        },
        old(state).remaining == 0 ==> *final(state) == *old(state) && *final(conn) == *old(conn),
{
    if state.remaining > 0 {
        let frames = state.remaining;
        let id = match state.pending_id.take() {
            Some(id) => id,
            None => String::new(),
        };
        state.remaining = 0;
        let _ = conn.begin_advance(frames, id);
    }
}

/// The scene queries that the collector answers.
#[derive(Debug, Clone, Copy, PartialEq, Eq, Structural)]
pub enum CollectorQuery {
    SnapshotData,
    FrameInfo,
    NodeInspect,
    SceneTree,
}

/// A refused scene query: an error code and a message for the client.
#[derive(Debug, Clone, PartialEq, Eq)]
pub struct QueryFailure {
    pub code: String,
    pub message: String,
}

/// The collector query a method name names, if any.
pub open spec fn spec_collector_query(method: Seq<char>) -> Option<CollectorQuery> {
    if method == "get_snapshot_data"@ {
        Some(CollectorQuery::SnapshotData)
    } else if method == "get_frame_info"@ {
        Some(CollectorQuery::FrameInfo)
    } else if method == "get_node_inspect"@ {
        Some(CollectorQuery::NodeInspect)
    } else if method == "get_scene_tree"@ {
        Some(CollectorQuery::SceneTree)
    } else {
        None
    }
}

/// Pick the collector query for a method; an unknown method is refused
/// with `method_not_found` and a message that names it.
pub fn collector_query(method: &str) -> (r: Result<CollectorQuery, QueryFailure>)
    ensures
        match spec_collector_query(method@) {
            Some(q) => r == Ok::<CollectorQuery, QueryFailure>(q),
            None => r matches Err(f) && f.code@ == "method_not_found"@ && f.message@
                == "Unknown query method: "@ + method@,
        },
{
    if str_eq(method, "get_snapshot_data") {
        Ok(CollectorQuery::SnapshotData)
    } else if str_eq(method, "get_frame_info") {
        Ok(CollectorQuery::FrameInfo)
    } else if str_eq(method, "get_node_inspect") {
        Ok(CollectorQuery::NodeInspect)
    } else if str_eq(method, "get_scene_tree") {
        Ok(CollectorQuery::SceneTree)
    } else {
        let mut message = String::from_str("Unknown query method: ");
        message.append(method);
        Err(QueryFailure { code: String::from_str("method_not_found"), message })
    }
}

/// The refusal of parameters that do not decode: `invalid_params`, with
/// the decoder's words.
pub fn invalid_params_failure(detail: &str) -> (f: QueryFailure)
    ensures
        f.code@ == "invalid_params"@,
        f.message@ == "Invalid params: "@ + detail@,
{
    let mut message = String::from_str("Invalid params: ");
    message.append(detail);
    QueryFailure { code: String::from_str("invalid_params"), message }
}

/// The refusal of an inspection or scene-tree query that the collector
/// could not answer: `node_not_found`, with the collector's message.
pub fn lookup_failure(message: String) -> (f: QueryFailure)
    ensures
        f.code@ == "node_not_found"@,
        f.message == message,
{
    QueryFailure { code: String::from_str("node_not_found"), message }
}

/// The refusal of an answer that could not be encoded: `internal`, with the
/// encoder's words.
pub fn encoding_failure(detail: &str) -> (f: QueryFailure)
    ensures
        f.code@ == "internal"@,
        f.message@ == "Serialization error: "@ + detail@,
{
    let mut message = String::from_str("Serialization error: ");
    message.append(detail);
    QueryFailure { code: String::from_str("internal"), message }
}

} // verus!
