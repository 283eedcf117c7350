use vstd::prelude::*;

use crate::text::str_eq;

verus! {

/// Known query method names dispatched by the addon's TCP query handler.
///
/// This is the authoritative list — adding a new method requires updating this enum.
/// Methods prefixed `Recording*` and `Dashcam*` are clip management methods.
#[derive(Debug, Clone, Copy, PartialEq, Eq, Structural)]
pub enum QueryMethod {
    GetSnapshotData,
    GetFrameInfo,
    GetNodeInspect,
    GetSceneTree,
    ExecuteAction,
    SpatialQuery,
    RecordingMarker,
    RecordingMarkers,
    RecordingList,
    RecordingDelete,
    RecordingResolvePath,
    DashcamStatus,
    DashcamFlush,
    DashcamConfig,
}

/// The wire name of each method.
pub open spec fn spec_method_name(m: QueryMethod) -> Seq<char> {
    match m {
        QueryMethod::GetSnapshotData => "get_snapshot_data"@,
        QueryMethod::GetFrameInfo => "get_frame_info"@,
        QueryMethod::GetNodeInspect => "get_node_inspect"@,
        QueryMethod::GetSceneTree => "get_scene_tree"@,
        QueryMethod::ExecuteAction => "execute_action"@,
        QueryMethod::SpatialQuery => "spatial_query"@,
        QueryMethod::RecordingMarker => "recording_marker"@,
        QueryMethod::RecordingMarkers => "recording_markers"@,
        QueryMethod::RecordingList => "recording_list"@,
        QueryMethod::RecordingDelete => "recording_delete"@,
        QueryMethod::RecordingResolvePath => "recording_resolve_path"@,
        QueryMethod::DashcamStatus => "dashcam_status"@,
        QueryMethod::DashcamFlush => "dashcam_flush"@,
        QueryMethod::DashcamConfig => "dashcam_config"@,
    }
}

/// The method a wire name denotes, if any: the first in declaration order whose name it is.
pub open spec fn spec_parse_method(s: Seq<char>) -> Option<QueryMethod> {
    if s == "get_snapshot_data"@ {
        Some(QueryMethod::GetSnapshotData)
    } else if s == "get_frame_info"@ {
        Some(QueryMethod::GetFrameInfo)
    } else if s == "get_node_inspect"@ {
        Some(QueryMethod::GetNodeInspect)
    } else if s == "get_scene_tree"@ {
        Some(QueryMethod::GetSceneTree)
    } else if s == "execute_action"@ {
        Some(QueryMethod::ExecuteAction)
    } else if s == "spatial_query"@ {
        Some(QueryMethod::SpatialQuery)
    } else if s == "recording_marker"@ {
        Some(QueryMethod::RecordingMarker)
    } else if s == "recording_markers"@ {
        Some(QueryMethod::RecordingMarkers)
    } else if s == "recording_list"@ {
        Some(QueryMethod::RecordingList)
    } else if s == "recording_delete"@ {
        Some(QueryMethod::RecordingDelete)
    } else if s == "recording_resolve_path"@ {
        Some(QueryMethod::RecordingResolvePath)
    } else if s == "dashcam_status"@ {
        Some(QueryMethod::DashcamStatus)
    } else if s == "dashcam_flush"@ {
        Some(QueryMethod::DashcamFlush)
    } else if s == "dashcam_config"@ {
        Some(QueryMethod::DashcamConfig)
    } else {
        None
    }
}

/// Clip management methods, routed to the recording handler.
pub open spec fn spec_is_clip_method(m: QueryMethod) -> bool {
    m == QueryMethod::RecordingMarker || m == QueryMethod::RecordingMarkers || m == QueryMethod::RecordingList || m == QueryMethod::RecordingDelete || m == QueryMethod::RecordingResolvePath || m == QueryMethod::DashcamStatus || m == QueryMethod::DashcamFlush || m == QueryMethod::DashcamConfig
}

impl QueryMethod {
    /// Resolve a wire method name to its enum variant. Returns `None` for unknown methods.
    pub fn parse(s: &str) -> (m: Option<Self>)
        ensures
            m == spec_parse_method(s@),
    {
        if str_eq(s, "get_snapshot_data") {
            return Some(Self::GetSnapshotData);
        }
        if str_eq(s, "get_frame_info") {
            return Some(Self::GetFrameInfo);
        }
        if str_eq(s, "get_node_inspect") {
            return Some(Self::GetNodeInspect);
        }
        if str_eq(s, "get_scene_tree") {
            return Some(Self::GetSceneTree);
        }
        if str_eq(s, "execute_action") {
            return Some(Self::ExecuteAction);
        }
        if str_eq(s, "spatial_query") {
            return Some(Self::SpatialQuery);
        }
        if str_eq(s, "recording_marker") {
            return Some(Self::RecordingMarker);
        }
        if str_eq(s, "recording_markers") {
            return Some(Self::RecordingMarkers);
        }
        if str_eq(s, "recording_list") {
            return Some(Self::RecordingList);
        }
        if str_eq(s, "recording_delete") {
            return Some(Self::RecordingDelete);
        }
        if str_eq(s, "recording_resolve_path") {
            return Some(Self::RecordingResolvePath);
        }
        if str_eq(s, "dashcam_status") {
            return Some(Self::DashcamStatus);
        }
        if str_eq(s, "dashcam_flush") {
            return Some(Self::DashcamFlush);
        }
        if str_eq(s, "dashcam_config") {
            return Some(Self::DashcamConfig);
        }
        None
    }

    /// Wire name for this method (inverse of `parse`).
    pub fn as_str(self) -> (s: &'static str)
        ensures
            s@ == spec_method_name(self),
    {
        match self {
            Self::GetSnapshotData => "get_snapshot_data",
            Self::GetFrameInfo => "get_frame_info",
            Self::GetNodeInspect => "get_node_inspect",
            Self::GetSceneTree => "get_scene_tree",
            Self::ExecuteAction => "execute_action",
            Self::SpatialQuery => "spatial_query",
            Self::RecordingMarker => "recording_marker",
            Self::RecordingMarkers => "recording_markers",
            Self::RecordingList => "recording_list",
            Self::RecordingDelete => "recording_delete",
            Self::RecordingResolvePath => "recording_resolve_path",
            Self::DashcamStatus => "dashcam_status",
            Self::DashcamFlush => "dashcam_flush",
            Self::DashcamConfig => "dashcam_config",
        }
    }

    /// Returns true if this method is routed through the recording handler.
    pub fn is_clip_method(self) -> (b: bool)
        ensures
            b == spec_is_clip_method(self),
    {
        matches!(
            self,
            Self::RecordingMarker
                | Self::RecordingMarkers
                | Self::RecordingList
                | Self::RecordingDelete
                | Self::RecordingResolvePath
                | Self::DashcamStatus
                | Self::DashcamFlush
                | Self::DashcamConfig
        )
    }
}

/// The shape of a query's JSON parameters, as far as the clip methods
/// look at it.
#[derive(Debug, Clone, Copy, PartialEq, Eq, Structural)]
pub enum ParamsShape {
    Null,
    Object,
    /// A string, number, boolean or array.
    Other,
}

/// The verdict on a query's parameters: a method with typed parameters
/// keeps the verdict of decoding them into its parameter type (`decoded`);
/// `recording_marker` needs an object; `recording_markers`,
/// `recording_list` and `recording_delete` need an object or null; the
/// other clip methods take anything.
pub open spec fn spec_validate_params(
    m: QueryMethod,
    shape: ParamsShape,
    decoded: Result<(), Seq<char>>,
) -> Result<(), Seq<char>> {
    match m {
        QueryMethod::RecordingMarker => if shape == ParamsShape::Object {
            Ok(())
        } else {
            Err("recording_marker params must be an object"@)
        },
        QueryMethod::RecordingMarkers | QueryMethod::RecordingList | QueryMethod::RecordingDelete => {
            if shape == ParamsShape::Other {
                Err(spec_method_name(m) + " params must be an object or null"@)
            } else {
                Ok(())
            }
        },
        QueryMethod::RecordingResolvePath | QueryMethod::DashcamStatus | QueryMethod::DashcamFlush
        | QueryMethod::DashcamConfig => Ok(()),
        _ => decoded,
    }
}

impl QueryMethod {
    /// Validate a query's parameters for this method. For the methods with
    /// typed parameters, `decoded` is the outcome of decoding the
    /// parameters into that type, with the decoder's message; the clip
    /// methods only look at the parameters' `shape`.
    pub fn validate_params(self, shape: ParamsShape, decoded: Result<(), String>) -> (r: Result<(), String>)
        ensures
            spec_validate_params(
                self,
                shape,
                match decoded {
                    Ok(()) => Ok(()),
                    Err(e) => Err(e@),
                },
            ) == match r {
                Ok(()) => Ok::<(), Seq<char>>(()),
                Err(e) => Err(e@),
            },
    {
        match self {
            Self::RecordingMarker => {
                if shape != ParamsShape::Object {
                    return Err(String::from_str("recording_marker params must be an object"));
                }
                Ok(())
            },
            Self::RecordingResolvePath | Self::DashcamStatus | Self::DashcamFlush
            | Self::DashcamConfig => Ok(()),
            Self::RecordingMarkers | Self::RecordingList | Self::RecordingDelete => {
                if shape == ParamsShape::Other {
                    let mut m = String::from_str(self.as_str());
                    m.append(" params must be an object or null");
                    return Err(m);
                }
                Ok(())
            },
            _ => decoded,
        }
    }
}

/// Parsing the wire name of any method gives back that method.
pub proof fn lemma_parse_as_str_round_trip(m: QueryMethod)
    ensures
        spec_parse_method(spec_method_name(m)) == Some(m),
{
    reveal_strlit("get_snapshot_data");
    reveal_strlit("get_frame_info");
    reveal_strlit("get_node_inspect");
    reveal_strlit("get_scene_tree");
    reveal_strlit("execute_action");
    reveal_strlit("spatial_query");
    reveal_strlit("recording_marker");
    reveal_strlit("recording_markers");
    reveal_strlit("recording_list");
    reveal_strlit("recording_delete");
    reveal_strlit("recording_resolve_path");
    reveal_strlit("dashcam_status");
    reveal_strlit("dashcam_flush");
    reveal_strlit("dashcam_config");
    match m {
        QueryMethod::GetSnapshotData => {
        },
        QueryMethod::GetFrameInfo => {
            assert("get_frame_info"@.len() != "get_snapshot_data"@.len());
        },
        QueryMethod::GetNodeInspect => {
            assert("get_node_inspect"@.len() != "get_snapshot_data"@.len());
            assert("get_node_inspect"@.len() != "get_frame_info"@.len());
        },
        QueryMethod::GetSceneTree => {
            assert("get_scene_tree"@.len() != "get_snapshot_data"@.len());
            assert("get_scene_tree"@[4] != "get_frame_info"@[4]);
            assert("get_scene_tree"@.len() != "get_node_inspect"@.len());
        },
        QueryMethod::ExecuteAction => {
            assert("execute_action"@.len() != "get_snapshot_data"@.len());
            assert("execute_action"@[0] != "get_frame_info"@[0]);
            assert("execute_action"@.len() != "get_node_inspect"@.len());
            assert("execute_action"@[0] != "get_scene_tree"@[0]);
        },
        QueryMethod::SpatialQuery => {
            assert("spatial_query"@.len() != "get_snapshot_data"@.len());
            assert("spatial_query"@.len() != "get_frame_info"@.len());
            assert("spatial_query"@.len() != "get_node_inspect"@.len());
            assert("spatial_query"@.len() != "get_scene_tree"@.len());
            assert("spatial_query"@.len() != "execute_action"@.len());
        },
        QueryMethod::RecordingMarker => {
            assert("recording_marker"@.len() != "get_snapshot_data"@.len());
            assert("recording_marker"@.len() != "get_frame_info"@.len());
            assert("recording_marker"@[0] != "get_node_inspect"@[0]);
            assert("recording_marker"@.len() != "get_scene_tree"@.len());
            assert("recording_marker"@.len() != "execute_action"@.len());
            assert("recording_marker"@.len() != "spatial_query"@.len());
        },
        QueryMethod::RecordingMarkers => {
            assert("recording_markers"@[0] != "get_snapshot_data"@[0]);
            assert("recording_markers"@.len() != "get_frame_info"@.len());
            assert("recording_markers"@.len() != "get_node_inspect"@.len());
            assert("recording_markers"@.len() != "get_scene_tree"@.len());
            assert("recording_markers"@.len() != "execute_action"@.len());
            assert("recording_markers"@.len() != "spatial_query"@.len());
            assert("recording_markers"@.len() != "recording_marker"@.len());
        },
        QueryMethod::RecordingList => {
            assert("recording_list"@.len() != "get_snapshot_data"@.len());
            assert("recording_list"@[0] != "get_frame_info"@[0]);
            assert("recording_list"@.len() != "get_node_inspect"@.len());
            assert("recording_list"@[0] != "get_scene_tree"@[0]);
            assert("recording_list"@[0] != "execute_action"@[0]);
            assert("recording_list"@.len() != "spatial_query"@.len());
            assert("recording_list"@.len() != "recording_marker"@.len());
            assert("recording_list"@.len() != "recording_markers"@.len());
        },
        QueryMethod::RecordingDelete => {
            assert("recording_delete"@.len() != "get_snapshot_data"@.len());
            assert("recording_delete"@.len() != "get_frame_info"@.len());
            assert("recording_delete"@[0] != "get_node_inspect"@[0]);
            assert("recording_delete"@.len() != "get_scene_tree"@.len());
            assert("recording_delete"@.len() != "execute_action"@.len());
            assert("recording_delete"@.len() != "spatial_query"@.len());
            assert("recording_delete"@[10] != "recording_marker"@[10]);
            assert("recording_delete"@.len() != "recording_markers"@.len());
            assert("recording_delete"@.len() != "recording_list"@.len());
        },
        QueryMethod::RecordingResolvePath => {
            assert("recording_resolve_path"@.len() != "get_snapshot_data"@.len());
            assert("recording_resolve_path"@.len() != "get_frame_info"@.len());
            assert("recording_resolve_path"@.len() != "get_node_inspect"@.len());
            assert("recording_resolve_path"@.len() != "get_scene_tree"@.len());
            assert("recording_resolve_path"@.len() != "execute_action"@.len());
            assert("recording_resolve_path"@.len() != "spatial_query"@.len());
            assert("recording_resolve_path"@.len() != "recording_marker"@.len());
            assert("recording_resolve_path"@.len() != "recording_markers"@.len());
            assert("recording_resolve_path"@.len() != "recording_list"@.len());
            assert("recording_resolve_path"@.len() != "recording_delete"@.len());
        },
        QueryMethod::DashcamStatus => {
            assert("dashcam_status"@.len() != "get_snapshot_data"@.len());
            assert("dashcam_status"@[0] != "get_frame_info"@[0]);
            assert("dashcam_status"@.len() != "get_node_inspect"@.len());
            assert("dashcam_status"@[0] != "get_scene_tree"@[0]);
            assert("dashcam_status"@[0] != "execute_action"@[0]);
            assert("dashcam_status"@.len() != "spatial_query"@.len());
            assert("dashcam_status"@.len() != "recording_marker"@.len());
            assert("dashcam_status"@.len() != "recording_markers"@.len());
            assert("dashcam_status"@[0] != "recording_list"@[0]);
            assert("dashcam_status"@.len() != "recording_delete"@.len());
            assert("dashcam_status"@.len() != "recording_resolve_path"@.len());
        },
        QueryMethod::DashcamFlush => {
            assert("dashcam_flush"@.len() != "get_snapshot_data"@.len());
            assert("dashcam_flush"@.len() != "get_frame_info"@.len());
            assert("dashcam_flush"@.len() != "get_node_inspect"@.len());
            assert("dashcam_flush"@.len() != "get_scene_tree"@.len());
            assert("dashcam_flush"@.len() != "execute_action"@.len());
            assert("dashcam_flush"@[0] != "spatial_query"@[0]);
            assert("dashcam_flush"@.len() != "recording_marker"@.len());
            assert("dashcam_flush"@.len() != "recording_markers"@.len());
            assert("dashcam_flush"@.len() != "recording_list"@.len());
            assert("dashcam_flush"@.len() != "recording_delete"@.len());
            assert("dashcam_flush"@.len() != "recording_resolve_path"@.len());
            assert("dashcam_flush"@.len() != "dashcam_status"@.len());
        },
        QueryMethod::DashcamConfig => {
            assert("dashcam_config"@.len() != "get_snapshot_data"@.len());
            assert("dashcam_config"@[0] != "get_frame_info"@[0]);
            assert("dashcam_config"@.len() != "get_node_inspect"@.len());
            assert("dashcam_config"@[0] != "get_scene_tree"@[0]);
            assert("dashcam_config"@[0] != "execute_action"@[0]);
            assert("dashcam_config"@.len() != "spatial_query"@.len());
            assert("dashcam_config"@.len() != "recording_marker"@.len());
            assert("dashcam_config"@.len() != "recording_markers"@.len());
            assert("dashcam_config"@[0] != "recording_list"@[0]);
            assert("dashcam_config"@.len() != "recording_delete"@.len());
            assert("dashcam_config"@.len() != "recording_resolve_path"@.len());
            assert("dashcam_config"@[8] != "dashcam_status"@[8]);
            assert("dashcam_config"@.len() != "dashcam_flush"@.len());
        },
    }
}

/// A name is accepted exactly when it is the wire name of some method.
pub proof fn lemma_parse_only_names(s: Seq<char>)
    ensures
        spec_parse_method(s) matches Some(m) ==> spec_method_name(m) == s,
        spec_parse_method(s) is None ==> forall|m: QueryMethod| spec_method_name(m) != s,
{
}

} // verus!
