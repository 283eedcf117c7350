use vstd::prelude::*;
use crate::addon_server::scene_dimensions_code;
use crate::cli::spec_opt_view;
use crate::config::spec_strings;
use crate::query::{FindBy, GetSceneTreeParams, SceneTreeAction, TreeInclude};
use crate::text::{contains, has_string, spec_contains, spec_has_string, spec_starts_with, starts_with, str_eq};

verus! {

broadcast use vstd::string::group_string_axioms;

/// Which branch of the engine's class hierarchy a node belongs to, as far
/// as the collector cares.
#[derive(Debug, Clone, Copy, PartialEq, Eq, Structural)]
pub enum NodeKind {
    /// Neither a 2D nor a 3D node.
    Plain,
    /// A `Node2D` or one of its subclasses.
    Spatial2D,
    /// A `Node3D` or one of its subclasses.
    Spatial3D,
}

/// What the collector reads of one node of the running scene tree, with
/// the node's children in tree order.
#[derive(Debug)]
pub struct SceneNode {
    pub name: String,
    pub class: String,
    pub kind: NodeKind,
    /// Every group the node is in, the engine's own (named with a leading
    /// underscore) included.
    pub groups: Vec<String>,
    /// The resource path of the attached script, if one is attached (empty
    /// for a script that was never saved).
    pub script: Option<String>,
    /// Whether the node is visible in the tree (meaningful for 3D nodes).
    pub visible_in_tree: bool,
    /// The node's process mode, as the engine names it.
    pub process_mode: String,
    pub children: Vec<SceneNode>,
}

/// A group the reports show: one not named with a leading underscore.
pub open spec fn spec_shown_group(g: Seq<char>) -> bool {
    !(g.len() > 0 && g[0] == '_')
}

/// The groups of `groups` that the reports show, in order.
pub open spec fn spec_shown_groups(groups: Seq<String>) -> Seq<Seq<char>>
    decreases groups.len(),
{
    if groups.len() == 0 {
        seq![]
    } else {
        let rest = spec_shown_groups(groups.drop_last());
        if spec_shown_group(groups.last()@) {
            rest.push(groups.last()@)
        } else {
            rest
        }
    }
}

/// The groups of `groups` that the reports show.
pub fn shown_groups(groups: &Vec<String>) -> (r: Vec<String>)
    ensures
        spec_strings(r@) == spec_shown_groups(groups@),
{
    let mut r: Vec<String> = Vec::new();
    let mut i: usize = 0;
    while i < groups.len()
        invariant
            i <= groups.len(),
            spec_strings(r@) == spec_shown_groups(groups@.take(i as int)),
        decreases groups.len() - i,
    {
        proof {
            assert(groups@.take(i + 1).drop_last() =~= groups@.take(i as int));
        }
        let g = groups[i].as_str();
        proof {
            reveal_strlit("_");
        }
        let underscore = starts_with(g, "_");
        proof {
            assert("_"@ =~= seq!['_']);
            if underscore {
                assert(g@.subrange(0, 1)[0] == g@[0]);
            } else if g@.len() > 0 && g@[0] == '_' {
                assert(g@.subrange(0, 1) =~= "_"@);
            }
            assert(underscore == !spec_shown_group(g@));
        }
        if !underscore {
            let ghost before = r@;
            r.push(groups[i].clone());
            assert(spec_strings(r@) =~= spec_strings(before).push(groups@[i as int]@));
        }
        i = i + 1;
    }
    assert(groups@.take(i as int) =~= groups@);
    r
}

/// The path of the node's script: none when no script is attached or its
/// path is empty.
pub open spec fn spec_script_path(node: SceneNode) -> Option<Seq<char>> {
    match node.script {
        Some(p) => if p@.len() > 0 {
            Some(p@)
        } else {
            None
        },
        None => None,
    }
}

/// The path of the node's script, if it has a saved one.
pub fn script_path(node: &SceneNode) -> (r: Option<String>)
    ensures
        spec_opt_view(r) == spec_script_path(*node),
{
    match &node.script {
        Some(p) => if p.as_str().unicode_len() > 0 {
            Some(p.clone())
        } else {
            None
        },
        None => None,
    }
}

/// A node that belongs to the spectator itself: the runtime node, one of
/// its server, collector or recorder nodes, or a node of the
/// `spectator_internal` group. Queries never report such a node.
pub open spec fn spec_is_spectator(node: SceneNode) -> bool {
    ||| node.name@ == "SpectatorRuntime"@
    ||| spec_starts_with(node.name@, "SpectatorTCPServer"@)
    ||| spec_starts_with(node.name@, "SpectatorCollector"@)
    ||| spec_starts_with(node.name@, "SpectatorRecorder"@)
    ||| spec_has_string(node.groups@, "spectator_internal"@)
}

/// Whether `node` belongs to the spectator itself.
pub fn is_spectator_node(node: &SceneNode) -> (b: bool)
    ensures
        b == spec_is_spectator(*node),
{
    let name = node.name.as_str();
    str_eq(name, "SpectatorRuntime") || starts_with(name, "SpectatorTCPServer") || starts_with(
        name,
        "SpectatorCollector",
    ) || starts_with(name, "SpectatorRecorder") || has_string(&node.groups, "spectator_internal")
}

/// The node is of the kind looked for: 2D when `want_2d`, else 3D.
pub open spec fn spec_is_kind(node: SceneNode, want_2d: bool) -> bool {
    if want_2d {
        node.kind == NodeKind::Spatial2D
    } else {
        node.kind == NodeKind::Spatial3D
    }
}

/// Some node of the subtree under `node` (itself included) is of the kind
/// looked for.
pub open spec fn spec_has_kind(node: SceneNode, want_2d: bool) -> bool
    decreases node, 0nat,
{
    spec_is_kind(node, want_2d) || spec_any_has_kind(node.children@, want_2d)
}

/// Some subtree rooted in `nodes` holds a node of the kind looked for.
pub open spec fn spec_any_has_kind(nodes: Seq<SceneNode>, want_2d: bool) -> bool
    decreases nodes, 1nat,
{
    if nodes.len() == 0 {
        false
    } else {
        spec_any_has_kind(nodes.drop_last(), want_2d) || spec_has_kind(nodes.last(), want_2d)
    }
}

/// A subtree in the list that holds the kind makes the list hold it.
proof fn lemma_any_has_kind_member(nodes: Seq<SceneNode>, j: int, want_2d: bool)
    requires
        0 <= j < nodes.len(),
        spec_has_kind(nodes[j], want_2d),
    ensures
        spec_any_has_kind(nodes, want_2d),
    decreases nodes.len(),
{
    if j < nodes.len() - 1 {
        lemma_any_has_kind_member(nodes.drop_last(), j, want_2d);
    }
}

/// Whether the subtree under `node` (itself included) holds a 2D node
/// (`want_2d`) or a 3D node; the walk stops at the first one found.
pub fn has_node_kind(node: &SceneNode, want_2d: bool) -> (b: bool)
    ensures
        b == spec_has_kind(*node, want_2d),
    decreases node,
{
    if want_2d {
        if node.kind == NodeKind::Spatial2D {
            return true;
        }
    } else if node.kind == NodeKind::Spatial3D {
        return true;
    }
    let mut i: usize = 0;
    while i < node.children.len()
        invariant
            i <= node.children.len(),
            !spec_is_kind(*node, want_2d),
            !spec_any_has_kind(node.children@.take(i as int), want_2d),
        decreases node.children.len() - i,
    {
        proof {
            assert(node.children@.take(i + 1).drop_last() =~= node.children@.take(i as int));
        }
        if has_node_kind(&node.children[i], want_2d) {
            proof {
                lemma_any_has_kind_member(node.children@, i as int, want_2d);
            }
            return true;
        }
        i = i + 1;
    }
    assert(node.children@.take(i as int) =~= node.children@);
    false
}

/// What a scene-tree query reports of one node: its name, the parts that
/// were asked for, and, for a search result, its path from the scene root.
#[derive(Debug)]
pub struct NodeInfo {
    pub name: String,
    pub class: Option<String>,
    /// Present only when asked for and the node is in some shown group.
    pub groups: Option<Vec<String>>,
    /// Present only when asked for and a saved script is attached.
    pub script: Option<String>,
    /// Present only when asked for and the node is a 3D node.
    pub visible: Option<bool>,
    pub process_mode: Option<String>,
    pub path: Option<String>,
}

/// The mathematical value of a [`NodeInfo`].
pub struct NodeInfoView {
    pub name: Seq<char>,
    pub class: Option<Seq<char>>,
    pub groups: Option<Seq<Seq<char>>>,
    pub script: Option<Seq<char>>,
    pub visible: Option<bool>,
    pub process_mode: Option<Seq<char>>,
    pub path: Option<Seq<char>>,
}

pub open spec fn spec_opt_strings(o: Option<Vec<String>>) -> Option<Seq<Seq<char>>> {
    match o {
        Some(v) => Some(spec_strings(v@)),
        None => None,
    }
}

impl View for NodeInfo {
    type V = NodeInfoView;

    open spec fn view(&self) -> NodeInfoView {
        NodeInfoView {
            name: self.name@,
            class: spec_opt_view(self.class),
            groups: spec_opt_strings(self.groups),
            script: spec_opt_view(self.script),
            visible: self.visible,
            process_mode: spec_opt_view(self.process_mode),
            path: spec_opt_view(self.path),
        }
    }
}

/// The views of a sequence of node reports.
pub open spec fn spec_infos(v: Seq<NodeInfo>) -> Seq<NodeInfoView> {
    v.map_values(|i: NodeInfo| i@)
}

/// The report of `node` with the parts in `includes`, and `path`.
pub open spec fn spec_node_info(node: SceneNode, includes: Seq<TreeInclude>, path: Option<Seq<char>>) -> NodeInfoView {
    NodeInfoView {
        name: node.name@,
        class: if includes.contains(TreeInclude::Class) {
            Some(node.class@)
        } else {
            None
        },
        groups: if includes.contains(TreeInclude::Groups) && spec_shown_groups(node.groups@).len() > 0 {
            Some(spec_shown_groups(node.groups@))
        } else {
            None
        },
        script: if includes.contains(TreeInclude::Script) {
            spec_script_path(node)
        } else {
            None
        },
        visible: if includes.contains(TreeInclude::Visible) && node.kind == NodeKind::Spatial3D {
            Some(node.visible_in_tree)
        } else {
            None
        },
        process_mode: if includes.contains(TreeInclude::ProcessMode) {
            Some(node.process_mode@)
        } else {
            None
        },
        path: path,
    }
}

/// Whether `includes` asks for `part`.
pub fn asks_for(includes: &Vec<TreeInclude>, part: TreeInclude) -> (b: bool)
    ensures
        b == includes@.contains(part),
{
    let mut i: usize = 0;
    while i < includes.len()
        invariant
            i <= includes.len(),
            forall|j: int| 0 <= j < i ==> includes@[j] != part,
        decreases includes.len() - i,
    {
        if includes[i] == part {
            return true;
        }
        i = i + 1;
    }
    false
}

/// The report of `node` with the parts in `includes`, tagged with `path`.
pub fn node_info(node: &SceneNode, includes: &Vec<TreeInclude>, path: Option<String>) -> (r: NodeInfo)
    ensures
        r@ == spec_node_info(*node, includes@, spec_opt_view(path)),
{
    let class = if asks_for(includes, TreeInclude::Class) {
        Some(node.class.clone())
    } else {
        None
    };
    let groups = if asks_for(includes, TreeInclude::Groups) {
        let shown = shown_groups(&node.groups);
        if shown.len() > 0 {
            Some(shown)
        } else {
            None
        }
    } else {
        None
    };
    let script = if asks_for(includes, TreeInclude::Script) {
        script_path(node)
    } else {
        None
    };
    let visible = if asks_for(includes, TreeInclude::Visible) && node.kind == NodeKind::Spatial3D {
        Some(node.visible_in_tree)
    } else {
        None
    };
    let process_mode = if asks_for(includes, TreeInclude::ProcessMode) {
        Some(node.process_mode.clone())
    } else {
        None
    };
    NodeInfo { name: node.name.clone(), class, groups, script, visible, process_mode, path }
}

/// The nodes of `nodes` that a query lists: all but the spectator's own.
pub open spec fn spec_listed(nodes: Seq<SceneNode>) -> Seq<SceneNode>
    decreases nodes.len(),
{
    if nodes.len() == 0 {
        seq![]
    } else {
        let rest = spec_listed(nodes.drop_last());
        if spec_is_spectator(nodes.last()) {
            rest
        } else {
            rest.push(nodes.last())
        }
    }
}

/// The reports of the listed nodes of `nodes`, in order.
pub open spec fn spec_list_infos(nodes: Seq<SceneNode>, includes: Seq<TreeInclude>) -> Seq<NodeInfoView> {
    spec_listed(nodes).map_values(|c: SceneNode| spec_node_info(c, includes, None))
}

/// The reports of the children of `node`, in tree order, leaving out the
/// spectator's own nodes: the answer to a `children` query, and to a
/// `roots` query when `node` is the tree's root.
pub fn child_infos(node: &SceneNode, includes: &Vec<TreeInclude>) -> (r: Vec<NodeInfo>)
    ensures
        spec_infos(r@) == spec_list_infos(node.children@, includes@),
{
    let mut r: Vec<NodeInfo> = Vec::new();
    let mut i: usize = 0;
    while i < node.children.len()
        invariant
            i <= node.children.len(),
            spec_infos(r@) == spec_list_infos(node.children@.take(i as int), includes@),
        decreases node.children.len() - i,
    {
        let ghost before = r@;
        proof {
            assert(node.children@.take(i + 1).drop_last() =~= node.children@.take(i as int));
        }
        if !is_spectator_node(&node.children[i]) {
            let info = node_info(&node.children[i], includes, None);
            r.push(info);
            assert(spec_infos(r@) =~= spec_infos(before).push(info@));
        }
        assert(spec_infos(r@) =~= spec_list_infos(node.children@.take(i + 1), includes@));
        i = i + 1;
    }
    assert(node.children@.take(i as int) =~= node.children@);
    r
}

/// Whether `node` answers a search by `by` for `value`: its name contains
/// the value, its class is the value, it is in the group named so, or its
/// script is the value.
pub open spec fn spec_node_matches(node: SceneNode, by: FindBy, value: Seq<char>) -> bool {
    match by {
        FindBy::Name => spec_contains(node.name@, value),
        FindBy::Class => node.class@ == value,
        FindBy::Group => spec_has_string(node.groups@, value),
        FindBy::Script => spec_script_path(node) == Some(value),
    }
}

/// Whether `node` answers a search by `by` for `value`.
pub fn node_matches(node: &SceneNode, by: FindBy, value: &str) -> (b: bool)
    ensures
        b == spec_node_matches(*node, by, value@),
{
    match by {
        FindBy::Name => contains(node.name.as_str(), value),
        FindBy::Class => str_eq(node.class.as_str(), value),
        FindBy::Group => has_string(&node.groups, value),
        FindBy::Script => match script_path(node) {
            Some(p) => str_eq(p.as_str(), value),
            None => false,
        },
    }
}

/// The path of a child named `name` from the scene root, given its
/// parent's path: the bare name under the root, else the parent's path, a
/// slash and the name.
pub open spec fn spec_child_path(parent: Seq<char>, parent_is_root: bool, name: Seq<char>) -> Seq<char> {
    if parent_is_root {
        name
    } else {
        parent + seq!['/'] + name
    }
}

/// The search results under `node`, whose path is `path`, in depth-first
/// order, parents before their children. The spectator's own nodes are
/// skipped with everything under them.
pub open spec fn spec_find(
    node: SceneNode,
    path: Seq<char>,
    is_root: bool,
    by: FindBy,
    value: Seq<char>,
    includes: Seq<TreeInclude>,
) -> Seq<NodeInfoView>
    decreases node, 0nat,
{
    if spec_is_spectator(node) {
        seq![]
    } else {
        let own = if spec_node_matches(node, by, value) {
            seq![spec_node_info(node, includes, Some(path))]
        } else {
            seq![]
        };
        own + spec_find_in(node.children@, path, is_root, by, value, includes)
    }
}

/// The search results under each of `nodes`, siblings whose parent's path
/// is `parent`, one after the other.
pub open spec fn spec_find_in(
    nodes: Seq<SceneNode>,
    parent: Seq<char>,
    parent_is_root: bool,
    by: FindBy,
    value: Seq<char>,
    includes: Seq<TreeInclude>,
) -> Seq<NodeInfoView>
    decreases nodes, 1nat,
{
    if nodes.len() == 0 {
        seq![]
    } else {
        spec_find_in(nodes.drop_last(), parent, parent_is_root, by, value, includes) + spec_find(
            nodes.last(),
            spec_child_path(parent, parent_is_root, nodes.last().name@),
            false,
            by,
            value,
            includes,
        )
    }
}

/// The path of a child, given its parent's path.
fn child_path(parent: &String, parent_is_root: bool, name: &String) -> (r: String)
    ensures
        r@ == spec_child_path(parent@, parent_is_root, name@),
{
    if parent_is_root {
        name.clone()
    } else {
        let mut r = parent.clone();
        r.append("/");
        proof {
            reveal_strlit("/");
        }
        r.append(name.as_str());
        assert(r@ =~= parent@ + seq!['/'] + name@);
        r
    }
}

/// Append the search results under `node`, whose path is `path`.
fn find_into(
    node: &SceneNode,
    path: &String,
    is_root: bool,
    by: FindBy,
    value: &str,
    includes: &Vec<TreeInclude>,
    out: &mut Vec<NodeInfo>,
)
    ensures
        spec_infos(final(out)@) == spec_infos(old(out)@) + spec_find(
            *node,
            path@,
            is_root,
            by,
            value@,
            includes@,
        ),
    decreases node,
{
    if is_spectator_node(node) {
        assert(spec_infos(out@) =~= spec_infos(old(out)@) + seq![]);
        return;
    }
    if node_matches(node, by, value) {
        let info = node_info(node, includes, Some(path.clone()));
        out.push(info);
    }
    let ghost start = spec_infos(out@);
    assert(start =~= spec_infos(old(out)@) + (if spec_node_matches(*node, by, value@) {
        seq![spec_node_info(*node, includes@, Some(path@))]
    } else {
        seq![]
    }));
    let mut i: usize = 0;
    while i < node.children.len()
        invariant
            i <= node.children.len(),
            spec_infos(out@) == start + spec_find_in(
                node.children@.take(i as int),
                path@,
                is_root,
                by,
                value@,
                includes@,
            ),
        decreases node.children.len() - i,
    {
        proof {
            assert(node.children@.take(i + 1).drop_last() =~= node.children@.take(i as int));
        }
        let p = child_path(path, is_root, &node.children[i].name);
        find_into(&node.children[i], &p, false, by, value, includes, out);
        assert(spec_infos(out@) =~= start + spec_find_in(
            node.children@.take(i + 1),
            path@,
            is_root,
            by,
            value@,
            includes@,
        ));
        i = i + 1;
    }
    assert(node.children@.take(i as int) =~= node.children@);
}

/// The answer to a `find` query on the current scene `scene`: every node
/// that answers the search, in depth-first order, each with its path from
/// the scene (`.` for the scene itself).
pub fn find_nodes(scene: &SceneNode, by: FindBy, value: &str, includes: &Vec<TreeInclude>) -> (r: Vec<NodeInfo>)
    ensures
        spec_infos(r@) == spec_find(*scene, "."@, true, by, value@, includes@),
{
    let mut out: Vec<NodeInfo> = Vec::new();
    let root = String::from_str(".");
    find_into(scene, &root, true, by, value, includes, &mut out);
    assert(spec_infos(out@) =~= seq![] + spec_find(*scene, "."@, true, by, value@, includes@));
    out
}

/// What a subtree report says of a node's children.
#[derive(Debug)]
pub enum SubtreeChildren {
    /// No children to show: the node has none, or only the spectator's own.
    Leaf,
    /// The reports of the listed children, in tree order.
    Expanded(Vec<Subtree>),
    /// The depth limit was reached at a node that has children.
    DepthLimitReached,
}

/// The report of a node and, down to a depth limit, of its descendants.
#[derive(Debug)]
pub struct Subtree {
    pub info: NodeInfo,
    pub children: SubtreeChildren,
}

/// The mathematical value of [`SubtreeChildren`].
pub enum SubtreeChildrenView {
    Leaf,
    Expanded(Seq<SubtreeView>),
    DepthLimitReached,
}

/// The mathematical value of a [`Subtree`].
pub struct SubtreeView {
    pub info: NodeInfoView,
    pub children: SubtreeChildrenView,
}

/// The value of a subtree report.
pub open spec fn spec_subtree_view(t: Subtree) -> SubtreeView
    decreases t, 0nat,
{
    SubtreeView {
        info: t.info@,
        children: match t.children {
            SubtreeChildren::Leaf => SubtreeChildrenView::Leaf,
            SubtreeChildren::Expanded(v) => SubtreeChildrenView::Expanded(spec_subtrees_view(v@)),
            SubtreeChildren::DepthLimitReached => SubtreeChildrenView::DepthLimitReached,
        },
    }
}

/// The values of a sequence of subtree reports.
pub open spec fn spec_subtrees_view(ts: Seq<Subtree>) -> Seq<SubtreeView>
    decreases ts, 1nat,
{
    if ts.len() == 0 {
        seq![]
    } else {
        spec_subtrees_view(ts.drop_last()).push(spec_subtree_view(ts.last()))
    }
}

impl View for Subtree {
    type V = SubtreeView;

    open spec fn view(&self) -> SubtreeView {
        spec_subtree_view(*self)
    }
}

/// The subtree report of `node`, which stands `depth` levels below the
/// node asked for, with `max_depth` the limit: below the limit, the
/// listed children are expanded (a leaf if there are none); at the limit, a
/// node with any child says that the limit was reached.
pub open spec fn spec_subtree(node: SceneNode, max_depth: u32, depth: u32, includes: Seq<TreeInclude>) -> SubtreeView
    decreases node, 0nat,
{
    SubtreeView {
        info: spec_node_info(node, includes, None),
        children: if depth < max_depth {
            let kids = spec_subtrees(node.children@, max_depth, (depth + 1) as u32, includes);
            if kids.len() == 0 {
                SubtreeChildrenView::Leaf
            } else {
                SubtreeChildrenView::Expanded(kids)
            }
        } else if node.children.len() > 0 {
            SubtreeChildrenView::DepthLimitReached
        } else {
            SubtreeChildrenView::Leaf
        },
    }
}

/// The subtree reports of the listed nodes of `nodes`, in order.
pub open spec fn spec_subtrees(nodes: Seq<SceneNode>, max_depth: u32, depth: u32, includes: Seq<TreeInclude>) -> Seq<SubtreeView>
    decreases nodes, 1nat,
{
    if nodes.len() == 0 {
        seq![]
    } else {
        let rest = spec_subtrees(nodes.drop_last(), max_depth, depth, includes);
        if spec_is_spectator(nodes.last()) {
            rest
        } else {
            rest.push(spec_subtree(nodes.last(), max_depth, depth, includes))
        }
    }
}

/// Build the subtree report of `node`, standing `depth` levels below the
/// node asked for, with `max_depth` the limit.
pub fn build_subtree(node: &SceneNode, max_depth: u32, depth: u32, includes: &Vec<TreeInclude>) -> (r: Subtree)
    ensures
        r@ == spec_subtree(*node, max_depth, depth, includes@),
    decreases node,
{
    let info = node_info(node, includes, None);
    if depth < max_depth {
        let mut kids: Vec<Subtree> = Vec::new();
        let mut i: usize = 0;
        while i < node.children.len()
            invariant
                i <= node.children.len(),
                depth < max_depth,
                spec_subtrees_view(kids@) == spec_subtrees(
                    node.children@.take(i as int),
                    max_depth,
                    (depth + 1) as u32,
                    includes@,
                ),
            decreases node.children.len() - i,
        {
            proof {
                assert(node.children@.take(i + 1).drop_last() =~= node.children@.take(i as int));
            }
            if !is_spectator_node(&node.children[i]) {
                let t = build_subtree(&node.children[i], max_depth, depth + 1, includes);
                let ghost before = kids@;
                kids.push(t);
                proof {
                    assert(kids@.drop_last() =~= before);
                }
            }
            i = i + 1;
        }
        assert(node.children@.take(i as int) =~= node.children@);
        if kids.len() == 0 {
            Subtree { info, children: SubtreeChildren::Leaf }
        } else {
            Subtree { info, children: SubtreeChildren::Expanded(kids) }
        }
    } else if node.children.len() > 0 {
        Subtree { info, children: SubtreeChildren::DepthLimitReached }
    } else {
        Subtree { info, children: SubtreeChildren::Leaf }
    }
}

/// The number of nodes in the subtree under `node`, itself included (the
/// spectator's own nodes count too).
pub open spec fn spec_count(node: SceneNode) -> nat
    decreases node, 0nat,
{
    1 + spec_count_in(node.children@)
}

/// The number of nodes in the subtrees under each of `nodes`.
pub open spec fn spec_count_in(nodes: Seq<SceneNode>) -> nat
    decreases nodes, 1nat,
{
    if nodes.len() == 0 {
        0
    } else {
        spec_count_in(nodes.drop_last()) + spec_count(nodes.last())
    }
}

/// The subtrees under a prefix of `nodes` hold no more nodes than those
/// under all of them.
proof fn lemma_count_prefix(nodes: Seq<SceneNode>, i: int)
    requires
        0 <= i <= nodes.len(),
    ensures
        spec_count_in(nodes.take(i)) <= spec_count_in(nodes),
    decreases nodes.len(),
{
    if i == nodes.len() {
        assert(nodes.take(i) =~= nodes);
    } else {
        assert(nodes.drop_last().take(i) =~= nodes.take(i));
        lemma_count_prefix(nodes.drop_last(), i);
    }
}

/// The number of nodes in the subtree under `node`, itself included.
pub fn count_nodes(node: &SceneNode) -> (n: usize)
    requires
        spec_count(*node) <= usize::MAX,
    ensures
        n == spec_count(*node),
    decreases node,
{
    let mut n: usize = 1;
    let mut i: usize = 0;
    while i < node.children.len()
        invariant
            i <= node.children.len(),
            spec_count(*node) <= usize::MAX,
            n == 1 + spec_count_in(node.children@.take(i as int)),
        decreases node.children.len() - i,
    {
        proof {
            assert(node.children@.take(i + 1).drop_last() =~= node.children@.take(i as int));
            lemma_count_prefix(node.children@, i + 1);
        }
        let c = count_nodes(&node.children[i]);
        n = n + c;
        i = i + 1;
    }
    assert(node.children@.take(i as int) =~= node.children@);
    n
}

/// `route` names, by child positions, a path of nodes down from `node`.
pub open spec fn spec_route_valid(node: SceneNode, route: Seq<usize>) -> bool
    decreases route.len(),
{
    route.len() == 0 || (route[0] < node.children.len() && spec_route_valid(
        node.children@[route[0] as int],
        route.drop_first(),
    ))
}

/// The reports of the nodes that `route` passes below `node`, the deepest
/// first.
pub open spec fn spec_chain(node: SceneNode, route: Seq<usize>, includes: Seq<TreeInclude>) -> Seq<NodeInfoView>
    decreases route.len(),
{
    if route.len() == 0 || route[0] >= node.children.len() {
        seq![]
    } else {
        let child = node.children@[route[0] as int];
        spec_chain(child, route.drop_first(), includes).push(spec_node_info(child, includes, None))
    }
}

/// The answer to an `ancestors` query for the node that `route` reaches
/// from the tree's root `root`: that node, then each node above it, up to
/// and without the root itself, unless the node asked for is the root.
pub open spec fn spec_ancestors(root: SceneNode, route: Seq<usize>, includes: Seq<TreeInclude>) -> Seq<NodeInfoView> {
    if route.len() == 0 {
        seq![spec_node_info(root, includes, None)]
    } else {
        spec_chain(root, route, includes)
    }
}

/// Append the reports of the nodes that `route[k..]` passes below `node`,
/// the deepest first.
fn chain_into(
    node: &SceneNode,
    route: &Vec<usize>,
    k: usize,
    includes: &Vec<TreeInclude>,
    out: &mut Vec<NodeInfo>,
)
    requires
        k <= route.len(),
        spec_route_valid(*node, route@.skip(k as int)),
    ensures
        spec_infos(final(out)@) == spec_infos(old(out)@) + spec_chain(*node, route@.skip(k as int), includes@),
    decreases route.len() - k,
{
    if k == route.len() {
        assert(spec_infos(out@) =~= spec_infos(old(out)@) + seq![]);
        return;
    }
    let at = route[k];
    assert(route@.skip(k as int)[0] == at);
    assert(route@.skip(k as int).drop_first() =~= route@.skip(k + 1));
    let child = &node.children[at];
    chain_into(child, route, k + 1, includes, out);
    let ghost before = out@;
    let info = node_info(child, includes, None);
    out.push(info);
    assert(spec_infos(out@) =~= spec_infos(before).push(info@));
}

/// The answer to an `ancestors` query for the node that `route` reaches
/// from the tree's root `root`.
pub fn ancestor_infos(root: &SceneNode, route: &Vec<usize>, includes: &Vec<TreeInclude>) -> (r: Vec<NodeInfo>)
    requires
        spec_route_valid(*root, route@),
    ensures
        spec_infos(r@) == spec_ancestors(*root, route@, includes@),
{
    let mut out: Vec<NodeInfo> = Vec::new();
    if route.len() == 0 {
        let info = node_info(root, includes, None);
        out.push(info);
        assert(spec_infos(out@) =~= seq![info@]);
        return out;
    }
    assert(route@.skip(0) =~= route@);
    chain_into(root, route, 0, includes, &mut out);
    assert(spec_infos(out@) =~= seq![] + spec_chain(*root, route@, includes@));
    out
}

/// A scene-tree query with what its action needs.
#[derive(Debug, PartialEq, Eq)]
pub enum SceneTreeRequest {
    Roots,
    Children { node: String },
    Subtree { node: String, depth: u32 },
    Ancestors { node: String },
    Find { find_by: FindBy, find_value: String },
}

/// The message for a query whose action lacks a parameter it needs.
pub open spec fn spec_missing(param: Seq<char>, action: Seq<char>) -> Seq<char> {
    "'"@ + param + "' is required for '"@ + action + "' action"@
}

/// The mathematical value of a [`SceneTreeRequest`].
pub enum SceneTreeRequestView {
    Roots,
    Children { node: Seq<char> },
    Subtree { node: Seq<char>, depth: u32 },
    Ancestors { node: Seq<char> },
    Find { find_by: FindBy, find_value: Seq<char> },
}

impl View for SceneTreeRequest {
    type V = SceneTreeRequestView;

    open spec fn view(&self) -> SceneTreeRequestView {
        match self {
            SceneTreeRequest::Roots => SceneTreeRequestView::Roots,
            SceneTreeRequest::Children { node } => SceneTreeRequestView::Children { node: node@ },
            SceneTreeRequest::Subtree { node, depth } => SceneTreeRequestView::Subtree { node: node@, depth: *depth },
            SceneTreeRequest::Ancestors { node } => SceneTreeRequestView::Ancestors { node: node@ },
            SceneTreeRequest::Find { find_by, find_value } => SceneTreeRequestView::Find {
                find_by: *find_by,
                find_value: find_value@,
            },
        }
    }
}

/// The checked form of a scene-tree query: each action but `roots` needs
/// a node, and `find` needs both what to search by and the value; a
/// missing one is refused with a message that names it. What to search by
/// is checked before the value.
pub open spec fn spec_scene_tree_request(
    action: SceneTreeAction,
    node: Option<Seq<char>>,
    depth: u32,
    find_by: Option<FindBy>,
    find_value: Option<Seq<char>>,
) -> Result<SceneTreeRequestView, Seq<char>> {
    match action {
        SceneTreeAction::Roots => Ok(SceneTreeRequestView::Roots),
        SceneTreeAction::Children => match node {
            Some(n) => Ok(SceneTreeRequestView::Children { node: n }),
            None => Err(spec_missing("node"@, "children"@)),
        },
        SceneTreeAction::Subtree => match node {
            Some(n) => Ok(SceneTreeRequestView::Subtree { node: n, depth }),
            None => Err(spec_missing("node"@, "subtree"@)),
        },
        SceneTreeAction::Ancestors => match node {
            Some(n) => Ok(SceneTreeRequestView::Ancestors { node: n }),
            None => Err(spec_missing("node"@, "ancestors"@)),
        },
        SceneTreeAction::Find => match find_by {
            None => Err(spec_missing("find_by"@, "find"@)),
            Some(b) => match find_value {
                None => Err(spec_missing("find_value"@, "find"@)),
                Some(v) => Ok(SceneTreeRequestView::Find { find_by: b, find_value: v }),
            },
        },
    }
}

/// The message for a missing parameter.
fn missing(param: &str, action: &str) -> (m: String)
    ensures
        m@ == spec_missing(param@, action@),
{
    let mut m = String::from_str("'");
    m.append(param);
    m.append("' is required for '");
    m.append(action);
    m.append("' action");
    m
}

/// Check a scene-tree query's parameters against what its action needs.
pub fn scene_tree_request(params: &GetSceneTreeParams) -> (r: Result<SceneTreeRequest, String>)
    ensures
        spec_scene_tree_request(
            params.action,
            spec_opt_view(params.node),
            params.depth,
            params.find_by,
            spec_opt_view(params.find_value),
        ) == match r {
            Ok(req) => Ok::<SceneTreeRequestView, Seq<char>>(req@),
            Err(e) => Err(e@),
        },
{
    match params.action {
        SceneTreeAction::Roots => Ok(SceneTreeRequest::Roots),
        SceneTreeAction::Children => match &params.node {
            Some(n) => Ok(SceneTreeRequest::Children { node: n.clone() }),
            None => Err(missing("node", "children")),
        },
        SceneTreeAction::Subtree => match &params.node {
            Some(n) => Ok(SceneTreeRequest::Subtree { node: n.clone(), depth: params.depth }),
            None => Err(missing("node", "subtree")),
        },
        SceneTreeAction::Ancestors => match &params.node {
            Some(n) => Ok(SceneTreeRequest::Ancestors { node: n.clone() }),
            None => Err(missing("node", "ancestors")),
        },
        SceneTreeAction::Find => match params.find_by {
            None => Err(missing("find_by", "find")),
            Some(b) => match &params.find_value {
                None => Err(missing("find_value", "find")),
                Some(v) => Ok(SceneTreeRequest::Find { find_by: b, find_value: v.clone() }),
            },
        },
    }
}

/// The message when a node path names no node.
pub fn node_not_found(path: &str) -> (m: String)
    ensures
        m@ == "Node '"@ + path@ + "' not found"@,
{
    let mut m = String::from_str("Node '");
    m.append(path);
    m.append("' not found");
    m
}

/// A snapshot or a spatial search takes a node when its class is one of
/// `class_filter` (or that filter is empty) and it is in one of
/// `group_filter` (or that filter is empty).
pub open spec fn spec_should_collect(
    class: Seq<char>,
    groups: Seq<String>,
    class_filter: Seq<String>,
    group_filter: Seq<String>,
) -> bool {
    &&& (class_filter.len() == 0 || exists|i: int| 0 <= i < class_filter.len() && class_filter[i]@ == class)
    &&& (group_filter.len() == 0 || exists|i: int| 0 <= i < group_filter.len() && spec_has_string(groups, group_filter[i]@))
}

/// Whether an entity of class `class` in the groups `groups` passes a class
/// filter and a group filter (an empty filter passes everything).
pub fn matches_filters(class: &str, groups: &Vec<String>, class_filter: &Vec<String>, group_filter: &Vec<String>) -> (b: bool)
    ensures
        b == spec_should_collect(class@, groups@, class_filter@, group_filter@),
{
    if class_filter.len() > 0 && !has_string(class_filter, class) {
        return false;
    }
    if group_filter.len() > 0 {
        let mut i: usize = 0;
        while i < group_filter.len()
            invariant
                i <= group_filter.len(),
                class_filter.len() == 0 || spec_has_string(class_filter@, class@),
                forall|j: int| 0 <= j < i ==> !spec_has_string(groups@, #[trigger] group_filter@[j]@),
            decreases group_filter.len() - i,
        {
            if has_string(groups, group_filter[i].as_str()) {
                assert(spec_has_string(groups@, group_filter@[i as int]@));
                return true;
            }
            i = i + 1;
        }
        return false;
    }
    true
}

/// Whether a snapshot takes `node`, given its class and group filters.
pub fn should_collect(node: &SceneNode, class_filter: &Vec<String>, group_filter: &Vec<String>) -> (b: bool)
    ensures
        b == spec_should_collect(node.class@, node.groups@, class_filter@, group_filter@),
{
    matches_filters(node.class.as_str(), &node.groups, class_filter, group_filter)
}

/// How many levels of expanded children a subtree report shows.
pub open spec fn spec_view_depth(t: SubtreeView) -> nat
    decreases t, 0nat,
{
    match t.children {
        SubtreeChildrenView::Expanded(kids) => 1 + spec_views_depth(kids),
        _ => 0,
    }
}

/// The most levels of expanded children among the reports `ts`.
pub open spec fn spec_views_depth(ts: Seq<SubtreeView>) -> nat
    decreases ts, 1nat,
{
    if ts.len() == 0 {
        0
    } else {
        let a = spec_views_depth(ts.drop_last());
        let b = spec_view_depth(ts.last());
        if a < b {
            b
        } else {
            a
        }
    }
}

/// A subtree report never expands more levels than the depth limit
/// allows: from a node `depth` levels down, at most `max_depth - depth`.
pub proof fn lemma_subtree_within_limit(node: SceneNode, max_depth: u32, depth: u32, includes: Seq<TreeInclude>)
    requires
        depth <= max_depth,
    ensures
        spec_view_depth(spec_subtree(node, max_depth, depth, includes)) <= max_depth - depth,
    decreases node, 0nat,
{
    if depth < max_depth {
        lemma_subtrees_within_limit(node.children@, max_depth, (depth + 1) as u32, includes);
    }
}

/// The reports of sibling subtrees from `depth` levels down expand at
/// most `max_depth - depth` levels.
pub proof fn lemma_subtrees_within_limit(
    nodes: Seq<SceneNode>,
    max_depth: u32,
    depth: u32,
    includes: Seq<TreeInclude>,
)
    requires
        depth <= max_depth,
    ensures
        spec_views_depth(spec_subtrees(nodes, max_depth, depth, includes)) <= max_depth - depth,
    decreases nodes, 1nat,
{
    if nodes.len() > 0 {
        let rest = spec_subtrees(nodes.drop_last(), max_depth, depth, includes);
        lemma_subtrees_within_limit(nodes.drop_last(), max_depth, depth, includes);
        if !spec_is_spectator(nodes.last()) {
            let t = spec_subtree(nodes.last(), max_depth, depth, includes);
            lemma_subtree_within_limit(nodes.last(), max_depth, depth, includes);
            assert(rest.push(t).drop_last() =~= rest);
        }
    }
}

/// A search by name reports only nodes whose name contains the value, and
/// each result carries its path.
pub proof fn lemma_name_search_sound(
    node: SceneNode,
    path: Seq<char>,
    is_root: bool,
    value: Seq<char>,
    includes: Seq<TreeInclude>,
)
    ensures
        forall|i: int|
            0 <= i < spec_find(node, path, is_root, FindBy::Name, value, includes).len() ==> {
                let r = #[trigger] spec_find(node, path, is_root, FindBy::Name, value, includes)[i];
                spec_contains(r.name, value) && r.path is Some
            },
    decreases node, 0nat,
{
    lemma_name_search_sound_in(node.children@, path, is_root, value, includes);
}

/// A search by name under sibling nodes reports only nodes whose name
/// contains the value, each with its path.
pub proof fn lemma_name_search_sound_in(
    nodes: Seq<SceneNode>,
    parent: Seq<char>,
    parent_is_root: bool,
    value: Seq<char>,
    includes: Seq<TreeInclude>,
)
    ensures
        forall|i: int|
            0 <= i < spec_find_in(nodes, parent, parent_is_root, FindBy::Name, value, includes).len() ==> {
                let r = #[trigger] spec_find_in(nodes, parent, parent_is_root, FindBy::Name, value, includes)[i];
                spec_contains(r.name, value) && r.path is Some
            },
    decreases nodes, 1nat,
{
    if nodes.len() > 0 {
        lemma_name_search_sound_in(nodes.drop_last(), parent, parent_is_root, value, includes);
        lemma_name_search_sound(
            nodes.last(),
            spec_child_path(parent, parent_is_root, nodes.last().name@),
            false,
            value,
            includes,
        );
    }
}

/// A property that the inspector reports as exported state: a script
/// variable that the editor shows (both usage flags set).
pub open spec fn spec_is_exported(usage: i64) -> bool {
    usage & 4100i64 == 4100i64
}

/// Whether a property with these usage flags is exported script state.
pub fn is_exported_property(usage: i64) -> (b: bool)
    ensures
        b == spec_is_exported(usage),
{
    usage & 4100i64 == 4100i64
}

/// One entry of a node's property list: its name and usage flags.
#[derive(Debug, Clone)]
pub struct PropertyEntry {
    pub name: String,
    pub usage: i64,
}

/// The names of the exported properties among `props`, in order; entries
/// without a name are skipped.
pub open spec fn spec_exported_names(props: Seq<PropertyEntry>) -> Seq<Seq<char>>
    decreases props.len(),
{
    if props.len() == 0 {
        seq![]
    } else {
        let rest = spec_exported_names(props.drop_last());
        let p = props.last();
        if p.name@.len() > 0 && spec_is_exported(p.usage) {
            rest.push(p.name@)
        } else {
            rest
        }
    }
}

/// The names of the properties whose values the inspector reads as the
/// node's exported state.
pub fn exported_property_names(props: &Vec<PropertyEntry>) -> (r: Vec<String>)
    ensures
        spec_strings(r@) == spec_exported_names(props@),
{
    let mut r: Vec<String> = Vec::new();
    let mut i: usize = 0;
    while i < props.len()
        invariant
            i <= props.len(),
            spec_strings(r@) == spec_exported_names(props@.take(i as int)),
        decreases props.len() - i,
    {
        proof {
            assert(props@.take(i + 1).drop_last() =~= props@.take(i as int));
        }
        let p = &props[i];
        if p.name.as_str().unicode_len() > 0 && is_exported_property(p.usage) {
            let ghost before = r@;
            r.push(p.name.clone());
            assert(spec_strings(r@) =~= spec_strings(before).push(p.name@));
        }
        i = i + 1;
    }
    assert(props@.take(i as int) =~= props@);
    r
}

/// One signal of a node: its name and how many connections it has.
#[derive(Debug, Clone)]
pub struct SignalEntry {
    pub name: String,
    pub connections: usize,
}

/// The names of the signals among `signals` that have a connection, in
/// order; entries without a name are skipped.
pub open spec fn spec_connected_names(signals: Seq<SignalEntry>) -> Seq<Seq<char>>
    decreases signals.len(),
{
    if signals.len() == 0 {
        seq![]
    } else {
        let rest = spec_connected_names(signals.drop_last());
        let sig = signals.last();
        if sig.name@.len() > 0 && sig.connections > 0 {
            rest.push(sig.name@)
        } else {
            rest
        }
    }
}

/// The names of the node's signals that have connections.
pub fn connected_signal_names(signals: &Vec<SignalEntry>) -> (r: Vec<String>)
    ensures
        spec_strings(r@) == spec_connected_names(signals@),
{
    let mut r: Vec<String> = Vec::new();
    let mut i: usize = 0;
    while i < signals.len()
        invariant
            i <= signals.len(),
            spec_strings(r@) == spec_connected_names(signals@.take(i as int)),
        decreases signals.len() - i,
    {
        proof {
            assert(signals@.take(i + 1).drop_last() =~= signals@.take(i as int));
        }
        let sig = &signals[i];
        if sig.name.as_str().unicode_len() > 0 && sig.connections > 0 {
            let ghost before = r@;
            r.push(sig.name.clone());
            assert(spec_strings(r@) =~= spec_strings(before).push(sig.name@));
        }
        i = i + 1;
    }
    assert(signals@.take(i as int) =~= signals@);
    r
}

/// Which extra properties the inspector reads for a child of a class.
#[derive(Debug, Clone, Copy, PartialEq, Eq, Structural)]
pub enum ChildProps {
    /// The class of the collision shape.
    Shape,
    /// Whether the mesh is visible.
    Visible,
    /// The names of the bodies overlapping the area.
    OverlappingBodies,
    /// Nothing more.
    Nothing,
}

/// The extra properties for a child of class `class`: the shape of a
/// `CollisionShape3D`, the visibility of a `MeshInstance3D`, the bodies
/// overlapping an `Area3D`, and nothing for any other class.
pub open spec fn spec_child_props(class: Seq<char>) -> ChildProps {
    if class == "CollisionShape3D"@ {
        ChildProps::Shape
    } else if class == "MeshInstance3D"@ {
        ChildProps::Visible
    } else if class == "Area3D"@ {
        ChildProps::OverlappingBodies
    } else {
        ChildProps::Nothing
    }
}

/// The extra properties the inspector reads for a child of class `class`.
pub fn child_props(class: &str) -> (r: ChildProps)
    ensures
        r == spec_child_props(class@),
{
    if str_eq(class, "CollisionShape3D") {
        ChildProps::Shape
    } else if str_eq(class, "MeshInstance3D") {
        ChildProps::Visible
    } else if str_eq(class, "Area3D") {
        ChildProps::OverlappingBodies
    } else {
        ChildProps::Nothing
    }
}

/// The time of a physics frame in whole milliseconds, at `ticks` physics
/// frames per second (0 when the rate is 0).
pub fn frame_timestamp_ms(frame: u64, ticks: u64) -> (ms: u64)
    requires
        frame * 1000 <= u64::MAX,
    ensures
        ms == (if ticks > 0 {
            (frame * 1000) / (ticks as int)
        } else {
            0
        }),
{
    if ticks > 0 {
        (frame * 1000) / ticks
    } else {
        0
    }
}

/// A search reports each node at most once: never more results than the
/// subtree has nodes.
pub proof fn lemma_find_within_count(
    node: SceneNode,
    path: Seq<char>,
    is_root: bool,
    by: FindBy,
    value: Seq<char>,
    includes: Seq<TreeInclude>,
)
    ensures
        spec_find(node, path, is_root, by, value, includes).len() <= spec_count(node),
    decreases node, 0nat,
{
    lemma_find_in_within_count(node.children@, path, is_root, by, value, includes);
}

/// A search under sibling nodes reports no more results than their
/// subtrees have nodes.
pub proof fn lemma_find_in_within_count(
    nodes: Seq<SceneNode>,
    parent: Seq<char>,
    parent_is_root: bool,
    by: FindBy,
    value: Seq<char>,
    includes: Seq<TreeInclude>,
)
    ensures
        spec_find_in(nodes, parent, parent_is_root, by, value, includes).len() <= spec_count_in(nodes),
    decreases nodes, 1nat,
{
    if nodes.len() > 0 {
        lemma_find_in_within_count(nodes.drop_last(), parent, parent_is_root, by, value, includes);
        lemma_find_within_count(
            nodes.last(),
            spec_child_path(parent, parent_is_root, nodes.last().name@),
            false,
            by,
            value,
            includes,
        );
    }
}

/// The paths of the nodes that a snapshot collects under `node`, whose path
/// is `path`, in depth-first order: the 3D nodes that pass the filters.
/// The spectator's own nodes are skipped with everything under them;
/// other nodes are looked through.
pub open spec fn spec_snapshot_paths(
    node: SceneNode,
    path: Seq<char>,
    is_root: bool,
    class_filter: Seq<String>,
    group_filter: Seq<String>,
) -> Seq<Seq<char>>
    decreases node, 0nat,
{
    if spec_is_spectator(node) {
        seq![]
    } else {
        let own = if node.kind == NodeKind::Spatial3D && spec_should_collect(
            node.class@,
            node.groups@,
            class_filter,
            group_filter,
        ) {
            seq![path]
        } else {
            seq![]
        };
        own + spec_snapshot_paths_in(node.children@, path, is_root, class_filter, group_filter)
    }
}

/// The paths that a snapshot collects under each of the sibling `nodes`.
pub open spec fn spec_snapshot_paths_in(
    nodes: Seq<SceneNode>,
    parent: Seq<char>,
    parent_is_root: bool,
    class_filter: Seq<String>,
    group_filter: Seq<String>,
) -> Seq<Seq<char>>
    decreases nodes, 1nat,
{
    if nodes.len() == 0 {
        seq![]
    } else {
        spec_snapshot_paths_in(nodes.drop_last(), parent, parent_is_root, class_filter, group_filter)
            + spec_snapshot_paths(
            nodes.last(),
            spec_child_path(parent, parent_is_root, nodes.last().name@),
            false,
            class_filter,
            group_filter,
        )
    }
}

/// Append the paths that a snapshot collects under `node`.
fn snapshot_paths_into(
    node: &SceneNode,
    path: &String,
    is_root: bool,
    class_filter: &Vec<String>,
    group_filter: &Vec<String>,
    out: &mut Vec<String>,
)
    ensures
        spec_strings(final(out)@) == spec_strings(old(out)@) + spec_snapshot_paths(
            *node,
            path@,
            is_root,
            class_filter@,
            group_filter@,
        ),
    decreases node,
{
    if is_spectator_node(node) {
        assert(spec_strings(out@) =~= spec_strings(old(out)@) + seq![]);
        return;
    }
    if node.kind == NodeKind::Spatial3D && should_collect(node, class_filter, group_filter) {
        out.push(path.clone());
    }
    let ghost start = spec_strings(out@);
    assert(start =~= spec_strings(old(out)@) + (if node.kind == NodeKind::Spatial3D && spec_should_collect(
        node.class@,
        node.groups@,
        class_filter@,
        group_filter@,
    ) {
        seq![path@]
    } else {
        seq![]
    }));
    let mut i: usize = 0;
    while i < node.children.len()
        invariant
            i <= node.children.len(),
            spec_strings(out@) == start + spec_snapshot_paths_in(
                node.children@.take(i as int),
                path@,
                is_root,
                class_filter@,
                group_filter@,
            ),
        decreases node.children.len() - i,
    {
        proof {
            assert(node.children@.take(i + 1).drop_last() =~= node.children@.take(i as int));
        }
        let p = child_path(path, is_root, &node.children[i].name);
        snapshot_paths_into(&node.children[i], &p, false, class_filter, group_filter, out);
        assert(spec_strings(out@) =~= start + spec_snapshot_paths_in(
            node.children@.take(i + 1),
            path@,
            is_root,
            class_filter@,
            group_filter@,
        ));
        i = i + 1;
    }
    assert(node.children@.take(i as int) =~= node.children@);
}

/// The paths, from the current scene `scene`, of the entities that a
/// snapshot collects with these class and group filters, in depth-first
/// order.
pub fn snapshot_paths(scene: &SceneNode, class_filter: &Vec<String>, group_filter: &Vec<String>) -> (r: Vec<String>)
    ensures
        spec_strings(r@) == spec_snapshot_paths(*scene, "."@, true, class_filter@, group_filter@),
{
    let mut out: Vec<String> = Vec::new();
    let root = String::from_str(".");
    snapshot_paths_into(scene, &root, true, class_filter, group_filter, &mut out);
    assert(spec_strings(out@) =~= seq![] + spec_snapshot_paths(*scene, "."@, true, class_filter@, group_filter@));
    out
}

/// The dimension code that the server announces for the current scene
/// (none: 3): 2 when it holds 2D nodes only, 0 when it holds both kinds, 3
/// otherwise.
pub fn handshake_dimensions(scene: Option<&SceneNode>) -> (code: u32)
    ensures
        code == match scene {
            None => 3u32,
            Some(n) => if spec_has_kind(*n, true) && !spec_has_kind(*n, false) {
                2u32
            } else if spec_has_kind(*n, true) && spec_has_kind(*n, false) {
                0u32
            } else {
                3u32
            },
        },
{
    match scene {
        None => 3,
        Some(n) => scene_dimensions_code(has_node_kind(n, true), has_node_kind(n, false)),
    }
}

/// The dimension code that a recording stores for the current scene
/// (none: 3): 2 when it holds 2D nodes only, 3 otherwise.
pub fn recording_dimensions(scene: Option<&SceneNode>) -> (code: u32)
    ensures
        code == match scene {
            None => 3u32,
            Some(n) => if spec_has_kind(*n, true) && !spec_has_kind(*n, false) {
                2u32
            } else {
                3u32
            },
        },
{
    match scene {
        None => 3,
        Some(n) => {
            if has_node_kind(n, true) && !has_node_kind(n, false) {
                2
            } else {
                3
            }
        },
    }
}

} // verus!
