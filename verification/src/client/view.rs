//! # Views
//!
//! While the server holds the ground truth for a game's world, the client keeps a running
//! "understanding" of it: these views, which it patches as server messages arrive.
use vstd::prelude::*;
use crate::deps::concurrent_maps::{
    block_type_list_entries, block_type_list_new, layout_view_entries, layout_view_map_new,
    no_block_types, no_layout_views,
};
use crate::server::messages::{ServerSceneMessage, ServerUniverseMessage, ServerWorldMessage};
use crate::world::block::BlockType;

verus! {

/// The client's view of a whole game.
#[derive(Debug)]
pub struct GameView {
    pub current_universe: UniverseView,
    pub current_world: WorldView,
}

/// The client's view of the universe: the block types it knows of.
#[derive(Debug)]
pub struct UniverseView {
    pub block_types_list: dashmap::DashMap<String, BlockType>,
}

/// The client's view of the current world: its current scene and the layouts it cached.
#[derive(Debug)]
pub struct WorldView {
    pub current_scene: SceneView,
    pub layout_views: dashmap::DashMap<String, LayoutView>,
}

/// The client's view of the current scene.
#[derive(Debug)]
pub struct SceneView {
    pub environment: EnvironmentView,
    pub root_layout: LayoutView,
}

/// The client's view of a scene's environment.
#[derive(Debug, Clone, Copy, PartialEq, Eq, Structural)]
pub struct EnvironmentView {
    pub xy_plane_is_solid_floor: bool,
}

/// The client's view of a layout: its block groups and the layouts nested in it.
#[derive(Debug)]
pub struct LayoutView {
    pub block_groups: Vec<BlockGroupView>,
    pub sub_layouts: Vec<LayoutRef>,
}

/// A layout placed inside another one.
#[derive(Debug)]
pub struct LayoutRef {
    pub id: String,
    pub transform: glam::Mat4,
}

/// The client's view of a block group.
#[derive(Debug)]
pub struct BlockGroupView {
    pub position: glam::Vec3,
    pub size: glam::Vec3,
    pub orientation: glam::Quat,
    pub block_data: Vec<BlockEntry>,
}

/// One block of a block group view: an index into the block palette.
#[derive(Debug, Clone, Copy, PartialEq, Eq, Structural)]
pub struct BlockEntry {
    pub index_in_block_palette: u32,
}

impl LayoutView {
    /// The layout holds no block group and no nested layout.
    pub open spec fn is_empty(&self) -> bool {
        self.block_groups@.len() == 0 && self.sub_layouts@.len() == 0
    }

    /// An empty layout.
    pub fn new() -> (r: Self)
        ensures
            r.is_empty(),
    {
        LayoutView { block_groups: Vec::new(), sub_layouts: Vec::new() }
    }
}

impl Default for LayoutView {
    fn default() -> (r: Self)
        ensures
            r.is_empty(),
    {
        Self::new()
    }
}

impl SceneView {
    /// The scene as the client first sees it: a solid floor and an empty root layout.
    pub open spec fn is_fresh(&self) -> bool {
        self.environment.xy_plane_is_solid_floor && self.root_layout.is_empty()
    }

    /// What `patch` makes of `old` on `message`: entering or leaving a scene clears it and
    /// takes its floor away; a block group message leaves it as it was.
    pub open spec fn patched(old: SceneView, new: SceneView, message: ServerSceneMessage) -> bool {
        match message {
            ServerSceneMessage::BlockGroup(_) => new == old,
            _ => !new.environment.xy_plane_is_solid_floor && new.root_layout.is_empty(),
        }
    }

    /// A fresh scene view.
    pub fn new() -> (r: Self)
        ensures
            r.is_fresh(),
    {
        SceneView {
            environment: EnvironmentView { xy_plane_is_solid_floor: true },
            root_layout: LayoutView::new(),
        }
    }

    /// Applies a message about the current scene.
    pub fn patch(&mut self, message: &ServerSceneMessage)
        ensures
            SceneView::patched(*old(self), *final(self), *message),
    {
        match message {
            ServerSceneMessage::EnterScene { .. } | ServerSceneMessage::LeaveScene {} => {
                self.environment = EnvironmentView { xy_plane_is_solid_floor: false };
                self.root_layout = LayoutView::new();
            },
            ServerSceneMessage::BlockGroup(_server_block_group_message) => {},
        }
    }

    /// Makes this view fresh again.
    pub fn reset(&mut self)
        ensures
            final(self).is_fresh(),
    {
        self.environment = EnvironmentView { xy_plane_is_solid_floor: true };
        self.root_layout = LayoutView::new();
    }
}

impl Default for SceneView {
    fn default() -> (r: Self)
        ensures
            r.is_fresh(),
    {
        Self::new()
    }
}

impl WorldView {
    /// The world as the client first sees it: a fresh scene and no cached layout.
    pub open spec fn is_fresh(&self) -> bool {
        self.current_scene.is_fresh() && layout_view_entries(self.layout_views) == no_layout_views()
    }

    /// What `patch` makes of `old` on `message`: entering or leaving a world makes the
    /// view fresh; a scene message patches the scene and keeps the cached layouts.
    pub open spec fn patched(old: WorldView, new: WorldView, message: ServerWorldMessage) -> bool {
        match message {
            ServerWorldMessage::CurrentScene(m) => {
                &&& SceneView::patched(old.current_scene, new.current_scene, m)
                &&& new.layout_views == old.layout_views
            },
            _ => new.is_fresh(),
        }
    }

    /// A fresh world view.
    pub fn new() -> (r: Self)
        ensures
            r.is_fresh(),
    {
        WorldView { current_scene: SceneView::new(), layout_views: layout_view_map_new() }
    }

    /// Applies a message about the current world.
    pub fn patch(&mut self, message: &ServerWorldMessage)
        ensures
            WorldView::patched(*old(self), *final(self), *message),
    {
        match message {
            ServerWorldMessage::EnterWorld { .. } | ServerWorldMessage::LeaveWorld => {
                self.current_scene = SceneView::new();
                self.layout_views = layout_view_map_new();
            },
            ServerWorldMessage::CurrentScene(scene_message) => {
                self.current_scene.patch(scene_message);
            },
        }
    }

    /// Makes this view fresh again.
    pub fn reset(&mut self)
        ensures
            final(self).is_fresh(),
    {
        self.current_scene.reset();
        self.layout_views = layout_view_map_new();
    }
}

impl Default for WorldView {
    fn default() -> (r: Self)
        ensures
            r.is_fresh(),
    {
        Self::new()
    }
}

impl UniverseView {
    /// The universe as the client first sees it: no known block type.
    pub open spec fn is_fresh(&self) -> bool {
        block_type_list_entries(self.block_types_list) == no_block_types()
    }

    /// A fresh universe view.
    pub fn new() -> (r: Self)
        ensures
            r.is_fresh(),
    {
        UniverseView { block_types_list: block_type_list_new() }
    }

    /// Applies a message about the universe: declaring the universe forgets every
    /// block type known so far.
    pub fn patch(&mut self, message: &ServerUniverseMessage)
        ensures
            final(self).is_fresh(),
    {
        match message {
            ServerUniverseMessage::Let { .. } => self.block_types_list = block_type_list_new(),
        }
    }

    /// Makes this view fresh again.
    pub fn reset(&mut self)
        ensures
            final(self).is_fresh(),
    {
        self.block_types_list = block_type_list_new();
    }
}

impl Default for UniverseView {
    fn default() -> (r: Self)
        ensures
            r.is_fresh(),
    {
        Self::new()
    }
}

impl GameView {
    /// The game as the client first sees it.
    pub open spec fn is_fresh(&self) -> bool {
        self.current_universe.is_fresh() && self.current_world.is_fresh()
    }

    /// A fresh game view.
    pub fn new() -> (r: Self)
        ensures
            r.is_fresh(),
    {
        GameView { current_universe: UniverseView::new(), current_world: WorldView::new() }
    }

    /// Makes this view fresh again.
    pub fn reset(&mut self)
        ensures
            final(self).is_fresh(),
    {
        self.current_universe.reset();
        self.current_world.reset();
    }
}

impl SceneView {
    /// The two scene views show the same environment and the same root layout.
    pub open spec fn same_contents(a: SceneView, b: SceneView) -> bool {
        &&& a.environment == b.environment
        &&& a.root_layout.block_groups@ == b.root_layout.block_groups@
        &&& a.root_layout.sub_layouts@ == b.root_layout.sub_layouts@
    }
}

impl WorldView {
    /// The two world views show the same scene and cache the same layouts.
    pub open spec fn same_contents(a: WorldView, b: WorldView) -> bool {
        &&& SceneView::same_contents(a.current_scene, b.current_scene)
        &&& layout_view_entries(a.layout_views) == layout_view_entries(b.layout_views)
    }
}

impl GameView {
    /// The two game views know the same block types and show the same world.
    pub open spec fn same_contents(a: GameView, b: GameView) -> bool {
        &&& block_type_list_entries(a.current_universe.block_types_list) == block_type_list_entries(b.current_universe.block_types_list)
        &&& WorldView::same_contents(a.current_world, b.current_world)
    }
}

/// Any two fresh game views show the same thing: resetting a view gives what a new one
/// shows.
pub proof fn lemma_fresh_game_views_alike(a: GameView, b: GameView)
    requires
        a.is_fresh(),
        b.is_fresh(),
    ensures
        GameView::same_contents(a, b),
{
    assert(a.current_world.current_scene.root_layout.block_groups@ =~= b.current_world.current_scene.root_layout.block_groups@);
    assert(a.current_world.current_scene.root_layout.sub_layouts@ =~= b.current_world.current_scene.root_layout.sub_layouts@);
}

/// Entering or leaving a world leads to the same world view, whatever the view was before.
pub proof fn lemma_world_change_forgets_the_past(
    a: WorldView,
    a2: WorldView,
    m: ServerWorldMessage,
    b: WorldView,
    b2: WorldView,
    n: ServerWorldMessage,
)
    requires
        !(m is CurrentScene),
        !(n is CurrentScene),
        WorldView::patched(a, a2, m),
        WorldView::patched(b, b2, n),
    ensures
        WorldView::same_contents(a2, b2),
{
    assert(a2.current_scene.root_layout.block_groups@ =~= b2.current_scene.root_layout.block_groups@);
    assert(a2.current_scene.root_layout.sub_layouts@ =~= b2.current_scene.root_layout.sub_layouts@);
}

/// Entering or leaving a scene twice in a row shows the same scene as doing it once.
pub proof fn lemma_scene_change_idempotent(
    a: SceneView,
    m: ServerSceneMessage,
    b: SceneView,
    n: ServerSceneMessage,
    c: SceneView,
)
    requires
        !(m is BlockGroup),
        !(n is BlockGroup),
        SceneView::patched(a, b, m),
        SceneView::patched(b, c, n),
    ensures
        SceneView::same_contents(b, c),
{
    assert(b.root_layout.block_groups@ =~= c.root_layout.block_groups@);
    assert(b.root_layout.sub_layouts@ =~= c.root_layout.sub_layouts@);
}

/// Messages about the current scene never touch the layouts the world view cached.
pub proof fn lemma_scene_messages_keep_cached_layouts(a: WorldView, b: WorldView, m: ServerSceneMessage)
    requires
        WorldView::patched(a, b, ServerWorldMessage::CurrentScene(m)),
    ensures
        layout_view_entries(b.layout_views) == layout_view_entries(a.layout_views),
{
}

impl Default for GameView {
    fn default() -> (r: Self)
        ensures
            r.is_fresh(),
    {
        Self::new()
    }
}

} // verus!
