use vstd::prelude::*;

verus! {

/// Parameters for `animation_read`.
#[derive(Debug, Clone)]
pub struct AnimationReadParams {
    /// Absolute path to the Godot project directory.
    pub project_path: String,

    /// Path to the animation resource (relative to project).
    pub resource_path: String,
}

/// Parameters for `animation_remove_track`.
#[derive(Debug, Clone)]
pub struct AnimationRemoveTrackParams {
    /// Absolute path to the Godot project directory.
    pub project_path: String,

    /// Path to the animation resource (relative to project).
    pub resource_path: String,

    /// Track index to remove. Mutually exclusive with `node_path`.
    pub track_index: Option<u32>,

    /// Remove all tracks matching this node path. Mutually exclusive
    /// with `track_index`.
    pub node_path: Option<String>,
}

/// One focused category of ClassDB metadata.
#[derive(Debug, Clone, Copy, Default, PartialEq, Eq, Structural)]
pub enum EngineApiCategory {
    #[default]
    Summary,
    Properties,
    Methods,
    Signals,
    Enums,
}

/// Parameters for `engine_api`.
#[derive(Debug, Clone)]
pub struct EngineApiParams {
    /// Absolute path to the Godot project directory.
    pub project_path: String,

    /// Built-in ClassDB class to inspect, such as Node2D or StandardMaterial3D.
    pub class_name: String,

    /// Metadata category to return. Summary is the bounded default.
    pub category: EngineApiCategory,

    /// Exact property, method, signal, or enum name to select.
    pub member: Option<String>,

    /// Zero-based offset into the selected category after deterministic sorting.
    pub offset: u32,

    /// Maximum members to return. Must be between 1 and 100.
    pub limit: u32,
}

#[derive(Debug, Clone)]
pub struct EngineVersion {
    pub major: u32,
    pub minor: u32,
    pub patch: u32,
    pub status: String,
    pub build: String,
    pub hash: String,
    pub string: String,
}

#[derive(Debug, Clone)]
pub struct EngineClassIdentity {
    pub class_name: String,
    pub parent_class: String,
    pub instantiable: bool,
}

#[derive(Debug, Clone)]
pub struct EngineApiCounts {
    pub properties: u32,
    pub methods: u32,
    pub signals: u32,
    pub enums: u32,
}

#[derive(Debug, Clone)]
pub struct EngineApiPage {
    pub offset: u32,
    pub limit: u32,
    pub total: u32,
    pub next_offset: Option<u32>,
}

#[derive(Debug, Clone, Copy, PartialEq, Eq, Structural)]
pub enum DefaultRepresentation {
    Json,
    Serialized,
    Text,
    Unavailable,
}

#[derive(Debug, Clone)]
pub struct EngineApiArgument {
    pub name: String,
    pub value_type: u32,
    pub type_label: String,
    pub class_name: String,
    pub hint: u32,
    pub hint_string: String,
    pub usage: u32,
}

#[derive(Debug, Clone)]
pub struct EngineEnumValue {
    pub name: String,
    pub value: i64,
}

/// A single GridMap cell to set.
#[derive(Debug, Clone)]
pub struct GridMapCell {
    /// Cell position as [x, y, z] in the grid.
    pub position: [i32; 3],

    /// MeshLibrary item index.
    pub item: i32,

    /// Orientation index (0-23 orthogonal rotations). Default: 0.
    pub orientation: Option<i32>,
}

/// Axis-aligned bounding box in grid coordinates.
#[derive(Debug, Clone)]
pub struct GridBounds {
    /// Minimum corner as [x, y, z] (inclusive).
    pub min: [i32; 3],

    /// Maximum corner as [x, y, z] (inclusive).
    pub max: [i32; 3],
}

/// Parameters for `gridmap_set_cells`.
#[derive(Debug, Clone)]
pub struct GridMapSetCellsParams {
    /// Absolute path to the Godot project directory.
    pub project_path: String,

    /// Scene file containing the GridMap (relative to project).
    pub scene_path: String,

    /// Path to the GridMap node within the scene tree.
    pub node_path: String,

    /// Cells to set. Each cell specifies position and mesh library item index.
    pub cells: Vec<GridMapCell>,
}

/// Parameters for `gridmap_get_cells`.
#[derive(Debug, Clone)]
pub struct GridMapGetCellsParams {
    /// Absolute path to the Godot project directory.
    pub project_path: String,

    /// Scene file containing the GridMap (relative to project).
    pub scene_path: String,

    /// Path to the GridMap node within the scene tree.
    pub node_path: String,

    /// Optional bounding box to filter cells. Only cells within these bounds
    /// are returned. Omit to get all used cells.
    pub bounds: Option<GridBounds>,

    /// Optional filter: only return cells with this MeshLibrary item.
    pub item: Option<i32>,
}

/// Parameters for `gridmap_clear`.
#[derive(Debug, Clone)]
pub struct GridMapClearParams {
    /// Absolute path to the Godot project directory.
    pub project_path: String,

    /// Scene file containing the GridMap (relative to project).
    pub scene_path: String,

    /// Path to the GridMap node within the scene tree.
    pub node_path: String,

    /// Optional bounding box to clear. Only cells within these bounds are
    /// removed. Omit to clear all cells.
    pub bounds: Option<GridBounds>,
}

/// Parameters for `scene_diff`.
#[derive(Debug, Clone)]
pub struct SceneDiffParams {
    /// Absolute path to the Godot project directory.
    pub project_path: String,

    /// Path to the first scene (relative to project, e.g. "scenes/player.tscn").
    /// Supports git ref syntax (e.g. "HEAD:scenes/player.tscn") to compare against
    /// previous versions.
    pub scene_a: String,

    /// Path to the second scene (relative to project).
    /// Supports git ref syntax (e.g. "HEAD:scenes/player.tscn").
    pub scene_b: String,
}

/// Parameters for `node_remove`.
#[derive(Debug, Clone)]
pub struct NodeRemoveParams {
    /// Absolute path to the Godot project directory.
    pub project_path: String,

    /// Path to the scene file relative to the project root.
    pub scene_path: String,

    /// Path to the node to remove within the scene tree.
    /// All children of this node are also removed.
    pub node_path: String,
}

/// Parameters for `node_reparent`.
#[derive(Debug, Clone)]
pub struct NodeReparentParams {
    /// Absolute path to the Godot project directory.
    pub project_path: String,

    /// Path to the scene file relative to the project root.
    pub scene_path: String,

    /// Path to the node to move within the scene tree.
    pub node_path: String,

    /// Path to the new parent node within the scene tree.
    pub new_parent_path: String,

    /// Rename the node during reparent. Useful to avoid name collisions.
    pub new_name: Option<String>,
}

/// Parameters for `node_set_groups`.
#[derive(Debug, Clone)]
pub struct NodeSetGroupsParams {
    /// Absolute path to the Godot project directory.
    pub project_path: String,

    /// Path to the scene file relative to the project root.
    pub scene_path: String,

    /// Path to the target node within the scene tree.
    pub node_path: String,

    /// Groups to add the node to.
    pub add: Option<Vec<String>>,

    /// Groups to remove the node from.
    pub remove: Option<Vec<String>>,
}

/// Parameters for `node_set_script`.
#[derive(Debug, Clone)]
pub struct NodeSetScriptParams {
    /// Absolute path to the Godot project directory.
    pub project_path: String,

    /// Path to the scene file relative to the project root.
    pub scene_path: String,

    /// Path to the target node within the scene tree.
    pub node_path: String,

    /// Path to the .gd script file (relative to project, e.g., "scripts/player.gd").
    /// Omit or set to null to detach the current script.
    pub script_path: Option<String>,
}

/// Parameters for `physics_set_layers`.
#[derive(Debug, Clone)]
pub struct PhysicsSetLayersParams {
    /// Absolute path to the Godot project directory.
    pub project_path: String,

    /// Scene file to modify (relative to project, e.g. "scenes/player.tscn").
    pub scene_path: String,

    /// Path to the node within the scene tree (e.g. "Player/CollisionShape2D").
    pub node_path: String,

    /// Collision layer bitmask (32-bit unsigned integer). Determines which
    /// physics layers this object occupies. Omit to leave unchanged.
    pub collision_layer: Option<u32>,

    /// Collision mask bitmask (32-bit unsigned integer). Determines which
    /// physics layers this object scans/detects. Omit to leave unchanged.
    pub collision_mask: Option<u32>,
}

/// Parameters for `autoload_add`.
#[derive(Debug, Clone)]
pub struct AutoloadAddParams {
    /// Absolute path to the Godot project directory (must contain project.godot).
    pub project_path: String,

    /// Autoload singleton name as it will appear in code (e.g. "EventBus", "GameState").
    pub name: String,

    /// Script path relative to the project root (e.g. "autoload/event_bus.gd").
    pub script_path: String,

    /// Whether the autoload is active. Default: true.
    pub enabled: bool,
}

/// Parameters for `autoload_remove`.
#[derive(Debug, Clone)]
pub struct AutoloadRemoveParams {
    /// Absolute path to the Godot project directory (must contain project.godot).
    pub project_path: String,

    /// Autoload singleton name to remove.
    pub name: String,
}

/// Parameters for `project_reload`.
#[derive(Debug, Clone)]
pub struct ProjectReloadParams {
    /// Absolute path to the Godot project directory (must contain project.godot).
    pub project_path: String,
}

/// Parameters for `editor_status`.
#[derive(Debug, Clone)]
pub struct EditorStatusParams {
    /// Absolute path to the Godot project directory (must contain project.godot).
    pub project_path: String,
}

/// Parameters for `uid_get`.
#[derive(Debug, Clone)]
pub struct UidGetParams {
    /// Absolute path to the Godot project directory.
    pub project_path: String,

    /// File path relative to project (e.g. "scenes/player.tscn").
    pub file_path: String,
}

/// Parameters for `uid_update_project`.
#[derive(Debug, Clone)]
pub struct UidUpdateProjectParams {
    /// Absolute path to the Godot project directory.
    pub project_path: String,

    /// Subdirectory to scan (relative to project). Default: scan entire project.
    pub directory: Option<String>,
}

/// Parameters for `export_mesh_library`.
#[derive(Debug, Clone)]
pub struct ExportMeshLibraryParams {
    /// Absolute path to the Godot project directory.
    pub project_path: String,

    /// Source scene containing MeshInstance3D nodes (relative to project).
    pub scene_path: String,

    /// Output path for the MeshLibrary .tres file (relative to project).
    pub output_path: String,

    /// Optional list of MeshInstance3D node names to include.
    /// If omitted, all MeshInstance3D children of the scene root are included.
    pub items: Option<Vec<String>>,
}

/// Parameters for `resource_read`.
#[derive(Debug, Clone)]
pub struct ResourceReadParams {
    /// Absolute path to the Godot project directory.
    pub project_path: String,

    /// Resource file to read (relative to project, e.g. "materials/ground.tres").
    pub resource_path: String,
}

/// Parameters for `scene_create`.
#[derive(Debug, Clone)]
pub struct SceneCreateParams {
    /// Absolute path to the Godot project directory (must contain project.godot).
    pub project_path: String,

    /// Path to the scene file relative to the project root (e.g., "scenes/player.tscn").
    pub scene_path: String,

    /// The Godot class name for the root node (e.g., "Node2D", "Node3D", "Control").
    pub root_type: String,
}

/// Parameters for `scene_read`.
#[derive(Debug, Clone)]
pub struct SceneReadParams {
    /// Absolute path to the Godot project directory (must contain project.godot).
    pub project_path: String,

    /// Path to the scene file relative to the project root (e.g., "scenes/player.tscn").
    pub scene_path: String,

    /// Maximum tree depth to include (default: unlimited).
    pub depth: Option<u32>,

    /// Whether to include node properties in the output (default: true).
    pub properties: bool,
}

/// Parameters for `scene_list`.
#[derive(Debug, Clone)]
pub struct SceneListParams {
    /// Absolute path to the Godot project directory (must contain project.godot).
    pub project_path: String,

    /// Subdirectory to list (relative to project root). Lists entire project if omitted.
    pub directory: Option<String>,

    /// Glob pattern to filter scene paths (e.g., "scenes/**/*.tscn").
    /// Uses Godot's String.match() which supports * and ? wildcards.
    /// Omitting returns all scenes (backward-compatible).
    pub pattern: Option<String>,
}

/// Parameters for `scene_add_instance`.
#[derive(Debug, Clone)]
pub struct SceneAddInstanceParams {
    /// Absolute path to the Godot project directory.
    pub project_path: String,

    /// Scene file to modify (relative to project, e.g. "scenes/level.tscn").
    pub scene_path: String,

    /// Scene to instance (relative to project, e.g. "scenes/player.tscn").
    pub instance_scene: String,

    /// Parent node path within the target scene (default: root ".").
    pub parent_path: String,

    /// Override the instance root's name. Uses the instanced scene's root name if omitted.
    pub node_name: Option<String>,
}

/// A connection between two nodes in a VisualShader graph.
#[derive(Debug, Clone)]
pub struct VisualShaderConnection {
    /// Source node ID.
    pub from_node: i32,

    /// Source port index on the from_node.
    pub from_port: i32,

    /// Destination node ID.
    pub to_node: i32,

    /// Destination port index on the to_node.
    pub to_port: i32,

    /// Which shader function graph this connection belongs to.
    /// Must match the shader_function of the connected nodes.
    pub shader_function: String,
}

/// Parameters for `signal_disconnect`.
#[derive(Debug, Clone)]
pub struct SignalDisconnectParams {
    /// Absolute path to the Godot project directory.
    pub project_path: String,

    /// Path to the scene file relative to the project root.
    pub scene_path: String,

    /// Path to the node emitting the signal.
    pub source_path: String,

    /// Signal name to disconnect.
    pub signal_name: String,

    /// Path to the node that was receiving the signal.
    pub target_path: String,

    /// Method name that was connected.
    pub method_name: String,
}

/// Parameters for `signal_list`.
#[derive(Debug, Clone)]
pub struct SignalListParams {
    /// Absolute path to the Godot project directory.
    pub project_path: String,

    /// Path to the scene file relative to the project root.
    pub scene_path: String,

    /// Optional: filter connections involving this node (as source or target).
    pub node_path: Option<String>,
}

/// A single tilemap cell to set.
#[derive(Debug, Clone)]
pub struct TileMapCell {
    /// Cell coordinates as [x, y] in the tilemap grid.
    pub coords: [i32; 2],

    /// TileSet source ID (index of the atlas source in the TileSet).
    pub source_id: i32,

    /// Atlas coordinates within the source as [x, y].
    pub atlas_coords: [i32; 2],

    /// Alternative tile index. Default: 0.
    pub alternative_tile: Option<i32>,
}

/// Region specified as position + size in cell coordinates, matching Godot's Rect2i.
#[derive(Debug, Clone)]
pub struct CellRegion {
    /// Top-left corner as [x, y] in cell coordinates.
    pub position: [i32; 2],

    /// Size as [width, height] in cells.
    pub size: [i32; 2],
}

/// Parameters for `tilemap_set_cells`.
#[derive(Debug, Clone)]
pub struct TileMapSetCellsParams {
    /// Absolute path to the Godot project directory.
    pub project_path: String,

    /// Scene file containing the TileMapLayer (relative to project).
    pub scene_path: String,

    /// Path to the TileMapLayer node within the scene tree.
    pub node_path: String,

    /// Cells to set. Each cell specifies coords, source_id, and atlas_coords.
    pub cells: Vec<TileMapCell>,
}

/// Parameters for `tilemap_get_cells`.
#[derive(Debug, Clone)]
pub struct TileMapGetCellsParams {
    /// Absolute path to the Godot project directory.
    pub project_path: String,

    /// Scene file containing the TileMapLayer (relative to project).
    pub scene_path: String,

    /// Path to the TileMapLayer node within the scene tree.
    pub node_path: String,

    /// Optional region to filter cells. Only cells within this rectangle
    /// are returned. Omit to get all used cells.
    pub region: Option<CellRegion>,

    /// Optional filter: only return cells from this TileSet source.
    pub source_id: Option<i32>,
}

/// Parameters for `tilemap_clear`.
#[derive(Debug, Clone)]
pub struct TileMapClearParams {
    /// Absolute path to the Godot project directory.
    pub project_path: String,

    /// Scene file containing the TileMapLayer (relative to project).
    pub scene_path: String,

    /// Path to the TileMapLayer node within the scene tree.
    pub node_path: String,

    /// Optional region to clear. Only cells within this rectangle are erased.
    /// Omit to clear all cells.
    pub region: Option<CellRegion>,
}

/// Default page size of `engine_api`.
pub fn default_limit() -> (n: u32)
    ensures
        n == 25,
{
    25
}

/// Default result cap of `node_find`.
pub fn default_find_limit() -> (n: u32)
    ensures
        n == 100,
{
    100
}

} // verus!
