use vstd::prelude::*;

verus! {

/// Response for scene_create.
#[derive(Debug, Clone)]
pub struct SceneCreateResponse {
    pub path: String,
    pub root_type: String,
}

/// Response for scene_list.
#[derive(Debug, Clone)]
pub struct SceneListResponse {
    pub scenes: Vec<SceneListEntry>,
}

/// A scene entry returned by scene_list.
#[derive(Debug, Clone)]
pub struct SceneListEntry {
    pub path: String,
    pub root_type: String,
    pub node_count: u32,
}

/// Response for scene_add_instance.
#[derive(Debug, Clone)]
pub struct SceneAddInstanceResponse {
    pub node_path: String,
    pub instance_scene: String,
}

/// Response for node_add.
#[derive(Debug, Clone)]
pub struct NodeAddResponse {
    pub node_path: String,
    pub node_type: String,
}

/// Response for node_set_properties.
#[derive(Debug, Clone)]
pub struct NodeSetPropertiesResponse {
    pub node_path: String,
    pub properties_set: Vec<String>,
}

/// Response for node_remove.
#[derive(Debug, Clone)]
pub struct NodeRemoveResponse {
    /// The path of the removed node.
    pub removed: String,
    /// Number of child nodes also removed.
    pub children_removed: u32,
}

/// Response for node_reparent.
#[derive(Debug, Clone)]
pub struct NodeReparentResponse {
    pub old_path: String,
    pub new_path: String,
}

/// Response for node_set_groups.
#[derive(Debug, Clone)]
pub struct NodeSetGroupsResponse {
    pub node_path: String,
    pub groups: Vec<String>,
}

/// Response for node_set_script.
#[derive(Debug, Clone)]
pub struct NodeSetScriptResponse {
    pub node_path: String,
    pub script_path: Option<String>,
}

/// Response for node_set_meta.
#[derive(Debug, Clone)]
pub struct NodeSetMetaResponse {
    pub node_path: String,
    pub meta_keys: Vec<String>,
}

/// Response for node_find.
#[derive(Debug, Clone)]
pub struct NodeFindResponse {
    pub results: Vec<NodeFindEntry>,
}

/// A node entry returned by node_find.
#[derive(Debug, Clone)]
pub struct NodeFindEntry {
    pub node_path: String,
    pub node_type: String,
    pub name: String,
}

/// Response for material_create and style_box_create.
#[derive(Debug, Clone)]
pub struct ResourceCreateResponse {
    pub path: String,
    pub resource_type: String,
}

/// Response for shape_create.
#[derive(Debug, Clone)]
pub struct ShapeCreateResponse {
    pub shape_type: String,
    /// Set when a save_path was provided.
    pub saved_to: Option<String>,
    /// Set when a scene_path + node_path was provided.
    pub attached_to: Option<String>,
}

/// Response for resource_duplicate.
#[derive(Debug, Clone)]
pub struct ResourceDuplicateResponse {
    pub path: String,
    pub resource_type: String,
    pub overrides_applied: Vec<String>,
}

/// Response for tilemap_set_cells.
#[derive(Debug, Clone)]
pub struct TileMapSetCellsResponse {
    pub cells_set: u32,
    pub node_path: String,
}

/// Response for tilemap_clear.
#[derive(Debug, Clone)]
pub struct TileMapClearResponse {
    pub cells_cleared: u32,
    pub node_path: String,
}

/// Response for gridmap_set_cells.
#[derive(Debug, Clone)]
pub struct GridMapSetCellsResponse {
    pub cells_set: u32,
    pub node_path: String,
}

/// Response for gridmap_clear.
#[derive(Debug, Clone)]
pub struct GridMapClearResponse {
    pub cells_cleared: u32,
    pub node_path: String,
}

/// Response for animation_add_track.
#[derive(Debug, Clone)]
pub struct AnimationAddTrackResponse {
    pub track_index: u32,
    pub keyframe_count: u32,
}

/// Response for animation_remove_track.
#[derive(Debug, Clone)]
pub struct AnimationRemoveTrackResponse {
    pub tracks_removed: u32,
}

/// Response for physics_set_layers.
#[derive(Debug, Clone)]
pub struct PhysicsSetLayersResponse {
    pub node_path: String,
    pub collision_layer: u32,
    pub collision_mask: u32,
}

/// Response for physics_set_layer_names.
#[derive(Debug, Clone)]
pub struct PhysicsSetLayerNamesResponse {
    pub layer_type: String,
    pub layers_set: u32,
}

/// Response for visual_shader_create.
#[derive(Debug, Clone)]
pub struct VisualShaderCreateResponse {
    pub path: String,
    pub node_count: u32,
    pub connection_count: u32,
}

/// Response for signal_connect and signal_disconnect.
#[derive(Debug, Clone)]
pub struct SignalConnectionResponse {
    pub source_path: String,
    pub signal_name: String,
    pub target_path: String,
    pub method_name: String,
}

/// Response for signal_list.
#[derive(Debug, Clone)]
pub struct SignalListResponse {
    pub connections: Vec<SignalConnectionEntry>,
}

/// A signal connection entry returned by signal_list.
#[derive(Debug, Clone)]
pub struct SignalConnectionEntry {
    pub source_path: String,
    pub signal_name: String,
    pub target_path: String,
    pub method_name: String,
    pub flags: u32,
}

/// Response for autoload_add.
#[derive(Debug, Clone)]
pub struct AutoloadAddResponse {
    pub name: String,
    pub script_path: String,
    pub enabled: bool,
}

/// Response for autoload_remove.
#[derive(Debug, Clone)]
pub struct AutoloadRemoveResponse {
    pub name: String,
}

/// Response for project_settings_set.
#[derive(Debug, Clone)]
pub struct ProjectSettingsSetResponse {
    pub keys_set: Vec<String>,
}

/// Response for uid_get.
#[derive(Debug, Clone)]
pub struct UidGetResponse {
    pub file_path: String,
    pub uid: String,
}

/// Response for uid_update_project.
#[derive(Debug, Clone)]
pub struct UidUpdateProjectResponse {
    pub files_scanned: u32,
    pub uids_registered: u32,
}

/// Response for export_mesh_library.
#[derive(Debug, Clone)]
pub struct ExportMeshLibraryResponse {
    pub path: String,
    pub items_exported: u32,
}

} // verus!
