use building_blocks::client::handle_server_message;
use building_blocks::client::render::{block_appearance_rects, block_views, UniverseRenderView};
use building_blocks::resources::universe::Universe;
use building_blocks::client::view::{
    BlockEntry, BlockGroupView, GameView, LayoutRef, LayoutView, SceneView, UniverseView, WorldView,
};
use building_blocks::resources::block_type::BlockAppearance;
use building_blocks::resources::material::{MaterialDefinition, MaterialRef};
use building_blocks::resources::texture::{Rect, TextureRef};
use building_blocks::server::messages::{
    ServerBlockGroupMessage, ServerConnectionMessage, ServerMessage, ServerSceneMessage,
    ServerUniverseMessage, ServerWorldMessage,
};
use building_blocks::world::block::{Block, BlockType};
use building_blocks::geometry::UVec3;

fn busy_world() -> WorldView {
    let mut world = WorldView::new();
    world.current_scene.root_layout.block_groups.push(BlockGroupView {
        position: glam::Vec3::ZERO,
        size: glam::Vec3::ONE,
        orientation: glam::Quat::IDENTITY,
        block_data: vec![BlockEntry { index_in_block_palette: 1 }],
    });
    world.current_scene.root_layout.sub_layouts.push(LayoutRef { id: "house".to_string(), transform: glam::Mat4::IDENTITY });
    world.layout_views.insert("house".to_string(), LayoutView::new());
    world
}

fn is_fresh(world: &WorldView) -> bool {
    world.current_scene.environment.xy_plane_is_solid_floor
        && world.current_scene.root_layout.block_groups.is_empty()
        && world.current_scene.root_layout.sub_layouts.is_empty()
        && world.layout_views.is_empty()
}

#[test]
fn new_views_are_fresh() {
    let game = GameView::new();
    assert!(game.current_universe.block_types_list.is_empty());
    assert!(is_fresh(&game.current_world));
    assert!(is_fresh(&GameView::default().current_world));
    let scene = SceneView::new();
    assert!(scene.environment.xy_plane_is_solid_floor);
}

#[test]
fn entering_a_world_forgets_the_old_one() {
    let mut world = busy_world();
    world.patch(&ServerWorldMessage::EnterWorld { id: "w2".to_string() });
    assert!(is_fresh(&world));
    let mut world = busy_world();
    world.patch(&ServerWorldMessage::LeaveWorld);
    assert!(is_fresh(&world));
}

#[test]
fn entering_a_scene_clears_it_and_removes_the_floor() {
    let mut world = busy_world();
    world.patch(&ServerWorldMessage::CurrentScene(ServerSceneMessage::EnterScene { id: "s".to_string() }));
    assert!(!world.current_scene.environment.xy_plane_is_solid_floor);
    assert!(world.current_scene.root_layout.block_groups.is_empty());
    assert!(world.current_scene.root_layout.sub_layouts.is_empty());
    assert_eq!(world.layout_views.len(), 1);
    world.patch(&ServerWorldMessage::CurrentScene(ServerSceneMessage::LeaveScene {}));
    assert!(!world.current_scene.environment.xy_plane_is_solid_floor);
    assert_eq!(world.layout_views.len(), 1);
}

#[test]
fn block_group_messages_change_nothing_yet() {
    let mut world = busy_world();
    world.patch(&ServerWorldMessage::CurrentScene(ServerSceneMessage::BlockGroup(ServerBlockGroupMessage::Define {
        id: "g".to_string(),
        size: UVec3::new(1, 2, 3),
        transform: glam::Affine3A::IDENTITY,
    })));
    assert!(world.current_scene.environment.xy_plane_is_solid_floor);
    assert_eq!(world.current_scene.root_layout.block_groups.len(), 1);
    assert_eq!(world.current_scene.root_layout.sub_layouts.len(), 1);
    assert_eq!(world.layout_views.len(), 1);
}

#[test]
fn resets_make_views_fresh() {
    let mut world = busy_world();
    world.reset();
    assert!(is_fresh(&world));
    let mut universe = UniverseView::new();
    universe.block_types_list.insert(
        "dirt".to_string(),
        BlockType {
            id: "dirt".to_string(),
            display_name: "Dirt".to_string(),
            appearance: cuboid("m"),
        },
    );
    universe.reset();
    assert!(universe.block_types_list.is_empty());
    universe.block_types_list.insert("x".to_string(), BlockType { id: "x".to_string(), display_name: "X".to_string(), appearance: cuboid("m") });
    universe.patch(&ServerUniverseMessage::Let { id: "u".to_string() });
    assert!(universe.block_types_list.is_empty());
}

#[test]
fn connection_accepted_resets_the_game_view() {
    let mut game = GameView::new();
    game.current_world = busy_world();
    handle_server_message(&mut game, ServerMessage::Connection(ServerConnectionMessage::Connect {}));
    assert!(is_fresh(&game.current_world));
}

#[test]
fn disconnection_leaves_the_game_view_alone() {
    let mut game = GameView::new();
    game.current_world = busy_world();
    handle_server_message(&mut game, ServerMessage::Connection(ServerConnectionMessage::Disconnect { reason: "bye".to_string() }));
    assert_eq!(game.current_world.current_scene.root_layout.block_groups.len(), 1);
    assert_eq!(game.current_world.layout_views.len(), 1);
}

#[test]
fn world_messages_patch_the_world_view() {
    let mut game = GameView::new();
    game.current_world = busy_world();
    handle_server_message(&mut game, ServerMessage::World(ServerWorldMessage::EnterWorld { id: "default".to_string() }));
    assert!(is_fresh(&game.current_world));
}

#[test]
fn block_views_keep_palette_indices() {
    let blocks = vec![Block { idx_in_palette: 3 }, Block { idx_in_palette: 0 }, Block { idx_in_palette: 9 }];
    let views: Vec<u32> = block_views(&blocks).iter().map(|v| v.idx_in_palette).collect();
    assert_eq!(views, vec![3, 0, 9]);
    assert!(block_views(&vec![]).is_empty());
}

fn cuboid(material: &str) -> BlockAppearance {
    BlockAppearance::Cuboid {
        x_min: MaterialRef { id: material.to_string() },
        x_max: MaterialRef { id: "other".to_string() },
        y_min: MaterialRef { id: "other".to_string() },
        y_max: MaterialRef { id: "other".to_string() },
        z_min: MaterialRef { id: "other".to_string() },
        z_max: MaterialRef { id: "other".to_string() },
    }
}

fn material(id: &str, x: f32) -> MaterialDefinition {
    MaterialDefinition {
        id: id.to_string(),
        display_name: id.to_string(),
        albedo: TextureRef {
            id: "atlas".to_string(),
            rect: Some(Rect { position: glam::Vec2::new(x, 0.0), size: glam::Vec2::new(8.0, 8.0) }),
        },
    }
}

#[test]
fn appearance_rects_follow_the_x_min_material() {
    let block_types = vec![
        BlockType { id: "a".to_string(), display_name: "A".to_string(), appearance: cuboid("grass") },
        BlockType { id: "b".to_string(), display_name: "B".to_string(), appearance: cuboid("missing") },
        BlockType { id: "c".to_string(), display_name: "C".to_string(), appearance: cuboid("dirt") },
    ];
    let materials = vec![material("dirt", 0.0), material("grass", 8.0), material("grass", 16.0)];
    let rects = block_appearance_rects(&block_types, &materials);
    let positions: Vec<glam::Vec2> = rects.iter().map(|r| r.position).collect();
    assert_eq!(positions, vec![glam::Vec2::new(8.0, 0.0), glam::Vec2::new(0.0, 0.0)]);
}

#[test]
fn example_universe_render_view_follows_its_block_types() {
    let view = UniverseRenderView::new(&Universe::example());
    let positions: Vec<glam::Vec2> = view.block_definition_appearances.iter().map(|r| r.atlas_position).collect();
    assert_eq!(positions, vec![glam::Vec2::new(0.0, 0.0), glam::Vec2::new(8.0, 0.0)]);
    assert!(view.block_definition_appearances.iter().all(|r| r.atlas_size == glam::Vec2::new(8.0, 8.0)));
}
