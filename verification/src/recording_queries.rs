use vstd::prelude::*;
use crate::text::str_eq;

verus! {

broadcast use vstd::string::group_string_axioms;

/// An error answer to a recording query: a code and a message.
#[derive(Debug, Clone, PartialEq, Eq)]
pub struct QueryError {
    pub code: String,
    pub message: String,
}

fn query_error(code: &str, message: String) -> (e: QueryError)
    ensures
        e.code@ == code@,
        e.message == message,
{
    QueryError { code: String::from_str(code), message }
}

/// The recording and dashcam queries that the recorder answers.
#[derive(Debug, Clone, Copy, PartialEq, Eq, Structural)]
pub enum RecordingMethod {
    Start,
    Stop,
    Status,
    List,
    Delete,
    Marker,
    Markers,
    ResolvePath,
    DashcamStatus,
    DashcamFlush,
    DashcamConfig,
}

pub open spec fn spec_recording_method_name(m: RecordingMethod) -> Seq<char> {
    match m {
        RecordingMethod::Start => "recording_start"@,
        RecordingMethod::Stop => "recording_stop"@,
        RecordingMethod::Status => "recording_status"@,
        RecordingMethod::List => "recording_list"@,
        RecordingMethod::Delete => "recording_delete"@,
        RecordingMethod::Marker => "recording_marker"@,
        RecordingMethod::Markers => "recording_markers"@,
        RecordingMethod::ResolvePath => "recording_resolve_path"@,
        RecordingMethod::DashcamStatus => "dashcam_status"@,
        RecordingMethod::DashcamFlush => "dashcam_flush"@,
        RecordingMethod::DashcamConfig => "dashcam_config"@,
    }
}

/// Which recorder query a method name asks for; an unknown name is answered
/// with `method_not_found`.
pub fn recording_method(method: &str) -> (r: Result<RecordingMethod, QueryError>)
    ensures
        r matches Ok(m) ==> spec_recording_method_name(m) == method@,
        r matches Err(e) ==> e.code@ == "method_not_found"@ && e.message@
            == "Unknown recording method: "@ + method@,
        r is Err ==> forall|m: RecordingMethod| spec_recording_method_name(m) != method@,
{
    if str_eq(method, "recording_start") {
        Ok(RecordingMethod::Start)
    } else if str_eq(method, "recording_stop") {
        Ok(RecordingMethod::Stop)
    } else if str_eq(method, "recording_status") {
        Ok(RecordingMethod::Status)
    } else if str_eq(method, "recording_list") {
        Ok(RecordingMethod::List)
    } else if str_eq(method, "recording_delete") {
        Ok(RecordingMethod::Delete)
    } else if str_eq(method, "recording_marker") {
        Ok(RecordingMethod::Marker)
    } else if str_eq(method, "recording_markers") {
        Ok(RecordingMethod::Markers)
    } else if str_eq(method, "recording_resolve_path") {
        Ok(RecordingMethod::ResolvePath)
    } else if str_eq(method, "dashcam_status") {
        Ok(RecordingMethod::DashcamStatus)
    } else if str_eq(method, "dashcam_flush") {
        Ok(RecordingMethod::DashcamFlush)
    } else if str_eq(method, "dashcam_config") {
        Ok(RecordingMethod::DashcamConfig)
    } else {
        let mut m = String::from_str("Unknown recording method: ");
        m.append(method);
        proof {
            assert forall|x: RecordingMethod| spec_recording_method_name(x) != method@ by {}
        }
        Err(query_error("method_not_found", m))
    }
}

/// The storage directory of recordings unless the query names another.
pub fn storage_path_or_default(storage_path: Option<&str>) -> (p: String)
    ensures
        p@ == (match storage_path {
            Some(s) => s@,
            None => "user://spectator_recordings/"@,
        }),
{
    match storage_path {
        Some(s) => String::from_str(s),
        None => String::from_str("user://spectator_recordings/"),
    }
}

/// The `recording_id` a query must carry.
pub fn required_recording_id(recording_id: Option<&str>) -> (r: Result<String, QueryError>)
    ensures
        match recording_id {
            Some(id) => r matches Ok(s) && s@ == id@,
            None => r matches Err(e) && e.code@ == "invalid_params"@ && e.message@
                == "recording_id is required"@,
        },
{
    match recording_id {
        Some(id) => Ok(String::from_str(id)),
        None => Err(query_error("invalid_params", String::from_str("recording_id is required"))),
    }
}

/// A failed delete names the recording that was not found.
pub fn delete_outcome(deleted: bool, recording_id: &str) -> (r: Result<(), QueryError>)
    ensures
        deleted ==> r is Ok,
        !deleted ==> (r matches Err(e) && e.code@ == "recording_not_found"@ && e.message@
            == "Recording '"@ + recording_id@ + "' not found"@),
{
    if deleted {
        Ok(())
    } else {
        let mut m = String::from_str("Recording '");
        m.append(recording_id);
        m.append("' not found");
        Err(query_error("recording_not_found", m))
    }
}

/// Whether the dashcam is running: active, or in one of its running states.
pub fn dashcam_running(active: bool, state: &str) -> (b: bool)
    ensures
        b == (active || state@ == "buffering"@ || state@ == "post_capture"@),
{
    active || str_eq(state, "buffering") || str_eq(state, "post_capture")
}

/// What a `recording_marker` query does.
#[derive(Debug, Clone, PartialEq, Eq)]
pub struct MarkerPlan {
    pub source: String,
    pub label: String,
    /// Add the marker to the explicit recording.
    pub add_to_recording: bool,
    /// Trigger a dashcam clip of this tier (`deliberate` for agent and
    /// human markers, `system` otherwise); `None` when a recording runs.
    pub dashcam_tier: Option<String>,
}

/// Plan a marker: refused when neither a recording nor the dashcam runs;
/// an explicit recording takes the marker, otherwise it triggers the
/// dashcam. Source defaults to `agent`, label to empty.
pub fn plan_marker(is_recording: bool, dashcam_state: &str, source: Option<&str>, label: Option<&str>) -> (r: Result<MarkerPlan, QueryError>)
    ensures
        ({
            let running = dashcam_state@ == "buffering"@ || dashcam_state@ == "post_capture"@;
            let src = match source {
                Some(s) => s@,
                None => "agent"@,
            };
            &&& (!is_recording && !running) ==> (r matches Err(e) && e.code@ == "no_recording_active"@
                && e.message@ == "No recording or dashcam is active to add a marker to"@)
            &&& (is_recording || running) ==> (r matches Ok(p) && p.source@ == src && p.label@ == (
            match label {
                Some(l) => l@,
                None => ""@,
            }) && p.add_to_recording == is_recording && (if is_recording {
                p.dashcam_tier is None
            } else {
                p.dashcam_tier matches Some(t) && t@ == (if src == "agent"@ || src == "human"@ {
                    "deliberate"@
                } else {
                    "system"@
                })
            }))
        }),
{
    let running = str_eq(dashcam_state, "buffering") || str_eq(dashcam_state, "post_capture");
    if !is_recording && !running {
        return Err(
            query_error(
                "no_recording_active",
                String::from_str("No recording or dashcam is active to add a marker to"),
            ),
        );
    }
    let src = String::from_str(
        match source {
            Some(s) => s,
            None => "agent",
        },
    );
    let lbl = String::from_str(
        match label {
            Some(l) => l,
            None => "",
        },
    );
    let dashcam_tier = if is_recording {
        None
    } else if str_eq(src.as_str(), "agent") || str_eq(src.as_str(), "human") {
        Some(String::from_str("deliberate"))
    } else {
        Some(String::from_str("system"))
    };
    Ok(MarkerPlan { source: src, label: lbl, add_to_recording: is_recording, dashcam_tier })
}

/// A dashcam flush answers with the stored clip, or fails when nothing was
/// stored (an empty clip id).
pub fn flush_outcome(recording_id: &str) -> (r: Result<(), QueryError>)
    ensures
        recording_id@.len() > 0 ==> r is Ok,
        recording_id@.len() == 0 ==> (r matches Err(e) && e.code@ == "dashcam_not_active"@
            && e.message@ == "Dashcam is not active or flush failed"@),
{
    if recording_id.unicode_len() > 0 {
        Ok(())
    } else {
        Err(query_error("dashcam_not_active", String::from_str("Dashcam is not active or flush failed")))
    }
}

/// What a `recording_start` query asks for.
#[derive(Debug, Clone, PartialEq, Eq)]
pub struct StartPlan {
    pub name: String,
    pub storage_path: String,
    pub capture_interval: u32,
    pub max_frames: u32,
}

/// Plan a recording start: refused while a recording runs; the name
/// defaults to empty, the storage to the recordings directory, the capture
/// interval to every frame and the frame limit to 36000 (the numbers are
/// taken in their low 32 bits).
pub fn plan_start(
    is_recording: bool,
    name: Option<&str>,
    storage_path: Option<&str>,
    capture_interval: Option<u64>,
    max_frames: Option<u64>,
) -> (r: Result<StartPlan, QueryError>)
    ensures
        is_recording ==> (r matches Err(e) && e.code@ == "recording_active"@ && e.message@
            == "A recording is already active"@),
        !is_recording ==> (r matches Ok(p) && p.name@ == (match name {
            Some(n) => n@,
            None => ""@,
        }) && p.storage_path@ == (match storage_path {
            Some(s) => s@,
            None => "user://spectator_recordings/"@,
        }) && p.capture_interval == (match capture_interval {
            Some(v) => v as u32,
            None => 1u32,
        }) && p.max_frames == (match max_frames {
            Some(v) => v as u32,
            None => 36000u32,
        })),
{
    if is_recording {
        return Err(query_error("recording_active", String::from_str("A recording is already active")));
    }
    let name = String::from_str(
        match name {
            Some(n) => n,
            None => "",
        },
    );
    let storage_path = storage_path_or_default(storage_path);
    let capture_interval: u32 = match capture_interval {
        Some(v) => v as u32,
        None => 1,
    };
    let max_frames: u32 = match max_frames {
        Some(v) => v as u32,
        None => 36000,
    };
    Ok(StartPlan { name, storage_path, capture_interval, max_frames })
}

/// A start that produced no recording id failed.
pub fn start_outcome(recording_id: &str) -> (r: Result<(), QueryError>)
    ensures
        recording_id@.len() > 0 ==> r is Ok,
        recording_id@.len() == 0 ==> (r matches Err(e) && e.code@ == "internal_error"@
            && e.message@ == "Failed to start recording"@),
{
    if recording_id.unicode_len() > 0 {
        Ok(())
    } else {
        Err(query_error("internal_error", String::from_str("Failed to start recording")))
    }
}

/// A stop needs a running recording.
pub fn require_recording(is_recording: bool) -> (r: Result<(), QueryError>)
    ensures
        is_recording ==> r is Ok,
        !is_recording ==> (r matches Err(e) && e.code@ == "no_recording_active"@ && e.message@
            == "No recording is active"@),
{
    if is_recording {
        Ok(())
    } else {
        Err(query_error("no_recording_active", String::from_str("No recording is active")))
    }
}

/// A dashcam configuration that the recorder refused.
pub fn config_outcome(applied: bool) -> (r: Result<(), QueryError>)
    ensures
        applied ==> r is Ok,
        !applied ==> (r matches Err(e) && e.code@ == "invalid_params"@ && e.message@
            == "Failed to apply dashcam config"@),
{
    if applied {
        Ok(())
    } else {
        Err(query_error("invalid_params", String::from_str("Failed to apply dashcam config")))
    }
}

} // verus!
