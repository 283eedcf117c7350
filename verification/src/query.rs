use vstd::prelude::*;

verus! {

#[derive(Debug, Clone, Copy, PartialEq, Eq, Default, Structural)]
pub enum DetailLevel {
    Summary,
    #[default]
    Standard,
    Full,
}

#[derive(Debug, Clone)]
pub struct RecentSignalData {
    pub signal: String,
    pub frame: u64,
}

#[derive(Debug, Clone)]
pub struct ChildData {
    pub name: String,
    pub class: String,
}

/// Parameters for `get_frame_info` query.
#[derive(Debug, Clone)]
pub struct GetFrameInfoParams {}

/// Parameters for `get_node_inspect` query method.
#[derive(Debug, Clone)]
pub struct GetNodeInspectParams {
    /// Node path relative to scene root.
    pub path: String,
    /// Which data categories to collect.
    pub includes: Vec<InspectCategory>,
    /// Whether to include internal (non-exported) variables.
    pub expose_internals: bool,
}

#[derive(Debug, Clone, Copy, PartialEq, Eq, Structural)]
pub enum InspectCategory {
    Transform,
    Physics,
    State,
    Children,
    Signals,
    Script,
    SpatialContext,
    Resources,
}

#[derive(Debug, Clone)]
pub struct MeshResourceData {
    /// Name of the child node holding the mesh.
    pub child: String,
    /// Resource path (e.g. "res://models/scout.tres") or null if inline.
    pub resource: Option<String>,
    /// Mesh class name (e.g. "ArrayMesh", "BoxMesh", "SphereMesh").
    pub mesh_type: String,
    /// Number of surfaces in the mesh.
    pub surface_count: u32,
    /// Material overrides per surface index.
    pub material_overrides: Vec<MaterialOverrideData>,
}

#[derive(Debug, Clone)]
pub struct MaterialOverrideData {
    /// Surface index.
    pub surface: u32,
    /// Material resource path or null if inline.
    pub resource: Option<String>,
    /// Material class name (e.g. "StandardMaterial3D", "ShaderMaterial").
    pub material_type: String,
}

#[derive(Debug, Clone)]
pub struct SpriteData {
    /// Name of the Sprite child node.
    pub child: String,
    /// Texture resource path (null if no texture).
    pub texture: Option<String>,
    /// Whether the sprite is visible.
    pub visible: bool,
    /// Flip flags.
    pub flip_h: bool,
    pub flip_v: bool,
}

#[derive(Debug, Clone)]
pub struct ParticleData {
    /// Name of the particle system child node.
    pub child: String,
    /// Whether particles are currently emitting.
    pub emitting: bool,
    /// Number of particles.
    pub amount: i32,
    /// Process material resource path (null if inline/none).
    pub process_material: Option<String>,
}

#[derive(Debug, Clone)]
pub struct InspectScript {
    pub path: String,
    pub base_class: String,
    pub methods: Vec<String>,
    pub extends_chain: Vec<String>,
}

/// Parameters for `get_scene_tree` query method.
#[derive(Debug, Clone)]
pub struct GetSceneTreeParams {
    pub action: SceneTreeAction,
    /// Node path — required for children, subtree, ancestors.
    pub node: Option<String>,
    /// Max recursion depth for subtree. Default: 3.
    pub depth: u32,
    /// For find: search criterion.
    pub find_by: Option<FindBy>,
    /// For find: search value.
    pub find_value: Option<String>,
    /// What to include per node.
    pub includes: Vec<TreeInclude>,
}

#[derive(Debug, Clone, Copy, PartialEq, Eq, Structural)]
pub enum SceneTreeAction {
    Roots,
    Children,
    Subtree,
    Ancestors,
    Find,
}

#[derive(Debug, Clone, Copy, PartialEq, Eq, Structural)]
pub enum FindBy {
    Name,
    Class,
    Group,
    Script,
}

#[derive(Debug, Clone, Copy, PartialEq, Eq, Structural)]
pub enum TreeInclude {
    Class,
    Groups,
    Script,
    Visible,
    ProcessMode,
}

/// Request to subscribe to signal emissions on a node.
#[derive(Debug, Clone)]
pub struct SubscribeSignalParams {
    pub path: String,
    pub signal: String,
}

/// Request to unsubscribe from signal emissions on a node.
#[derive(Debug, Clone)]
pub struct UnsubscribeSignalParams {
    pub path: String,
    pub signal: String,
}

/// Default depth of a scene-tree query.
pub fn default_depth() -> (n: u32)
    ensures
        n == 3,
{
    3
}

/// What a scene-tree query includes per node unless told otherwise: the
/// class and the groups.
pub fn default_tree_include() -> (v: Vec<TreeInclude>)
    ensures
        v@ == seq![TreeInclude::Class, TreeInclude::Groups],
{
    let mut v: Vec<TreeInclude> = Vec::new();
    v.push(TreeInclude::Class);
    v.push(TreeInclude::Groups);
    v
}

} // verus!
