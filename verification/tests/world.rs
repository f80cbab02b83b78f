use building_blocks::geometry::UVec3;
use building_blocks::resources::block_type::{BlockAppearance, BlockTypeDefinition};
use building_blocks::resources::material::MaterialRef;
use building_blocks::resources::Id;
use building_blocks::world::block::{example_blocks, Block, BlockGroup, BlockType, PerFace, PhysicsMode};
use building_blocks::world::World;

fn cuboid(material: &str) -> BlockAppearance {
    BlockAppearance::Cuboid {
        x_min: MaterialRef { id: material.to_string() },
        x_max: MaterialRef { id: material.to_string() },
        y_min: MaterialRef { id: material.to_string() },
        y_max: MaterialRef { id: material.to_string() },
        z_min: MaterialRef { id: material.to_string() },
        z_max: MaterialRef { id: material.to_string() },
    }
}

#[test]
fn example_blocks_are_the_three_layers() {
    let blocks = example_blocks();
    let indices: Vec<u32> = blocks.iter().map(|b| b.idx_in_palette).collect();
    assert_eq!(
        indices,
        vec![
            2, 0, 2, 2, 0, 2, 2, 2, 2, //
            0, 0, 0, 0, 0, 0, 2, 2, 2, //
            2, 0, 2, 2, 0, 2, 2, 2, 2,
        ]
    );
}

#[test]
fn homogeneous_puts_the_value_on_every_face() {
    let faces = PerFace::homogeneous(7u32);
    assert_eq!(
        [faces.x_min, faces.x_max, faces.y_min, faces.y_max, faces.z_min, faces.z_max],
        [7; 6]
    );
    let named = PerFace::homogeneous("stone".to_string());
    assert_eq!(named.x_min, "stone");
    assert_eq!(named.z_max, "stone");
}

#[test]
fn block_type_from_definition_copies_everything() {
    let definition = BlockTypeDefinition {
        id: "toyvox:dirt".to_string(),
        display_name: "Dirt".to_string(),
        appearance: cuboid("toyvox:dirt"),
    };
    let block_type = BlockType::from_definition(&definition);
    assert_eq!(block_type.id, "toyvox:dirt");
    assert_eq!(block_type.display_name, "Dirt");
    assert_eq!(block_type.id(), "toyvox:dirt");
    let BlockAppearance::Cuboid { x_min, z_max, .. } = &block_type.appearance;
    assert_eq!(x_min.id, "toyvox:dirt");
    assert_eq!(z_max.id, "toyvox:dirt");
}

#[test]
fn volume_multiplies_the_sides() {
    assert_eq!(UVec3::new(3, 3, 3).volume(), 27);
    assert_eq!(UVec3::new(100, 100, 21).volume(), 210_000);
    assert_eq!(UVec3::new(5, 0, 9).volume(), 0);
    assert_eq!(UVec3::new(65_536, 65_535, 1).volume(), 4_294_901_760);
}

#[test]
fn block_group_clone_keeps_everything() {
    let group = BlockGroup {
        transform: glam::Affine3A::from_translation(glam::Vec3::new(1.0, 2.0, 3.0)),
        physics_mode: PhysicsMode::Kinematic,
        size: UVec3::new(2, 1, 1),
        blocks: vec![Block { idx_in_palette: 4 }, Block { idx_in_palette: 5 }],
    };
    let copy = group.clone();
    assert_eq!(copy.transform, group.transform);
    assert_eq!(copy.physics_mode, PhysicsMode::Kinematic);
    assert_eq!(copy.size, UVec3::new(2, 1, 1));
    assert_eq!(copy.blocks, group.blocks);
}

#[test]
fn example_world_has_one_scene_with_the_example_group() {
    let world = World::example();
    assert_eq!(world.id, "example");
    assert_eq!(world.scenes.len(), 1);
    let (name, scene) = world.scenes.get_index(0).unwrap();
    assert_eq!(name, "default");
    assert!(scene.environment.xy_plane_is_solid_floor);
    assert_eq!(scene.root_layout.block_groups.len(), 1);
    let (_, group) = scene.root_layout.block_groups.iter().next().unwrap();
    assert_eq!(group.physics_mode, PhysicsMode::Dynamic);
    assert_eq!(group.size, UVec3::new(3, 3, 3));
    assert_eq!(group.blocks.len() as u32, group.size.volume());
    assert_eq!(group.blocks, example_blocks());
    assert_eq!(group.transform, glam::Affine3A::IDENTITY);
}
