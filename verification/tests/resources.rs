use std::path::PathBuf;

use building_blocks::resources::block_type::{BlockAppearance, BlockTypeDefinition};
use building_blocks::resources::data_pack::{insert_block_type_definitions, insert_material_definitions, insert_texture_definitions, DataPack};
use building_blocks::resources::material::{MaterialDefinition, MaterialRef};
use building_blocks::resources::texture::{Rect, TextureDefinition, TextureRef};
use building_blocks::resources::universe::Universe;
use building_blocks::resources::{DataPackRef, Id, UniverseDefinition};

fn material(id: &str, name: &str, x: f32) -> MaterialDefinition {
    MaterialDefinition {
        id: id.to_string(),
        display_name: name.to_string(),
        albedo: TextureRef {
            id: "atlas".to_string(),
            rect: Some(Rect { position: glam::Vec2::new(x, 0.0), size: glam::Vec2::new(8.0, 8.0) }),
        },
    }
}

fn texture(id: &str, source: &str) -> TextureDefinition {
    TextureDefinition { id: id.to_string(), display_name: id.to_uppercase(), source: PathBuf::from(source) }
}

fn block(id: &str, material: &str) -> BlockTypeDefinition {
    BlockTypeDefinition {
        id: id.to_string(),
        display_name: id.to_uppercase(),
        appearance: BlockAppearance::Cuboid {
            x_min: MaterialRef { id: material.to_string() },
            x_max: MaterialRef { id: material.to_string() },
            y_min: MaterialRef { id: material.to_string() },
            y_max: MaterialRef { id: material.to_string() },
            z_min: MaterialRef { id: material.to_string() },
            z_max: MaterialRef { id: material.to_string() },
        },
    }
}

fn pack(id: &str, materials: Vec<MaterialDefinition>, textures: Vec<TextureDefinition>) -> DataPack {
    DataPack::from_definitions(id.to_string(), textures, materials, vec![])
}

#[test]
fn from_definitions_keys_each_definition_by_its_id() {
    let p = DataPack::from_definitions(
        "base".to_string(),
        vec![texture("atlas", "textures/atlas.png")],
        vec![material("dirt", "Dirt", 0.0), material("stone", "Stone", 8.0)],
        vec![block("dirt_block", "dirt")],
    );
    assert_eq!(p.id, "base");
    assert_eq!(p.id(), "base");
    let keys: Vec<&String> = p.material_definitions.keys().collect();
    assert_eq!(keys, vec!["dirt", "stone"]);
    assert_eq!(p.material_definitions["stone"].display_name, "Stone");
    assert_eq!(p.texture_definitions["atlas"].source, PathBuf::from("textures/atlas.png"));
    assert_eq!(p.block_definitions["dirt_block"].display_name, "DIRT_BLOCK");
}

#[test]
fn from_definitions_later_definition_replaces_earlier_in_place() {
    let p = pack(
        "base",
        vec![material("dirt", "Dirt", 0.0), material("stone", "Stone", 8.0), material("dirt", "Wet Dirt", 16.0)],
        vec![],
    );
    assert_eq!(p.material_definitions.len(), 2);
    let (first_key, first) = p.material_definitions.get_index(0).unwrap();
    assert_eq!(first_key, "dirt");
    assert_eq!(first.display_name, "Wet Dirt");
    assert_eq!(first.albedo.rect.as_ref().unwrap().position, glam::Vec2::new(16.0, 0.0));
    assert_eq!(p.material_definitions.get_index(1).unwrap().0, "stone");
}

#[test]
fn universe_keeps_the_first_pack_of_each_id() {
    let universe = Universe::from_data_packs(
        "u".to_string(),
        vec![
            pack("a", vec![material("x", "first a", 0.0)], vec![]),
            pack("b", vec![], vec![]),
            pack("a", vec![material("x", "second a", 0.0)], vec![]),
        ],
    );
    assert_eq!(universe.id, "u");
    let ids: Vec<&str> = universe.data_packs.iter().map(|p| p.id.as_str()).collect();
    assert_eq!(ids, vec!["a", "b"]);
    assert_eq!(universe.material("x".to_string()).unwrap().display_name, "first a");
}

#[test]
fn later_packs_take_precedence_in_lookups() {
    let universe = Universe::from_data_packs(
        "u".to_string(),
        vec![
            pack("base", vec![material("dirt", "Base Dirt", 0.0), material("stone", "Stone", 8.0)], vec![texture("atlas", "base.png")]),
            pack("mod", vec![material("dirt", "Modded Dirt", 24.0)], vec![]),
        ],
    );
    assert_eq!(universe.material("dirt".to_string()).unwrap().display_name, "Modded Dirt");
    assert_eq!(universe.material("stone".to_string()).unwrap().display_name, "Stone");
    assert!(universe.material("grass".to_string()).is_none());
    assert_eq!(universe.texture("atlas".to_string()).unwrap().source, PathBuf::from("base.png"));
    assert!(universe.texture("dirt".to_string()).is_none());
}

#[test]
fn cloned_lists_go_pack_by_pack() {
    let universe = Universe::from_data_packs(
        "u".to_string(),
        vec![
            pack("base", vec![material("dirt", "Base Dirt", 0.0), material("stone", "Stone", 8.0)], vec![texture("t1", "1.png")]),
            pack("mod", vec![material("dirt", "Modded Dirt", 24.0)], vec![texture("t2", "2.png"), texture("t3", "3.png")]),
        ],
    );
    let materials: Vec<String> = universe.materials_cloned().into_iter().map(|m| m.display_name).collect();
    assert_eq!(materials, vec!["Base Dirt", "Stone", "Modded Dirt"]);
    let textures: Vec<PathBuf> = universe.textures_cloned().into_iter().map(|t| t.source).collect();
    assert_eq!(textures, vec![PathBuf::from("1.png"), PathBuf::from("2.png"), PathBuf::from("3.png")]);
}

#[test]
fn block_types_of_every_pack() {
    let universe = Universe::from_data_packs(
        "u".to_string(),
        vec![
            DataPack::from_definitions("a".to_string(), vec![], vec![], vec![block("dirt", "m1"), block("stone", "m2")]),
            DataPack::from_definitions("b".to_string(), vec![], vec![], vec![block("grass", "m3")]),
        ],
    );
    let ids: Vec<String> = universe.block_types().into_iter().map(|b| b.id).collect();
    assert_eq!(ids, vec!["dirt", "stone", "grass"]);
}

#[test]
fn example_universe_has_the_default_pack() {
    let universe = Universe::example();
    assert_eq!(universe.id, "example");
    assert_eq!(universe.data_packs.len(), 1);
    let p = universe.data_packs.get_index(0).unwrap();
    assert_eq!(p.id, "default");
    assert!(p.texture_definitions.is_empty());
    let keys: Vec<&String> = p.block_definitions.keys().collect();
    assert_eq!(keys, vec!["dirt", "grassy_dirt"]);
    assert_eq!(p.block_definitions["dirt"].id, "toyvox:dirt");
    assert_eq!(p.block_definitions["grassy_dirt"].display_name, "Grassy Dirt");
    let grassy = universe.material("toyvox:grassy_dirt".to_string()).unwrap();
    assert_eq!(grassy.display_name, "Grassy Dirt");
    assert_eq!(grassy.albedo.id, "toyvox:main-atlas");
    let rect = grassy.albedo.rect.as_ref().unwrap();
    assert_eq!(rect.position, glam::Vec2::new(8.0, 0.0));
    assert_eq!(rect.size, glam::Vec2::new(8.0, 8.0));
    let dirt = universe.material("toyvox:dirt".to_string()).unwrap();
    assert_eq!(dirt.albedo.rect.as_ref().unwrap().position, glam::Vec2::new(0.0, 0.0));
    let types: Vec<String> = universe.block_types().into_iter().map(|b| b.id).collect();
    assert_eq!(types, vec!["toyvox:dirt", "toyvox:grassy_dirt"]);
}

#[test]
fn only_local_packs_are_loaded() {
    let definition = UniverseDefinition {
        id: "u".to_string(),
        display_name: "U".to_string(),
        data_packs: vec![
            DataPackRef::Local(PathBuf::from("packs/base")),
            DataPackRef::Git("https://example.org/pack.git".to_string()),
            DataPackRef::Local(PathBuf::from("packs/extra")),
        ],
    };
    assert_eq!(definition.id(), "u");
    assert_eq!(
        definition.local_data_pack_dirs(),
        vec![PathBuf::from("packs/base"), PathBuf::from("packs/extra")]
    );
}

#[test]
fn packs_are_equal_by_id() {
    let a = pack("same", vec![material("x", "X", 0.0)], vec![]);
    let b = pack("same", vec![], vec![]);
    let c = pack("other", vec![], vec![]);
    assert!(a == b);
    assert!(a != c);
}

#[test]
fn clones_are_equal_copies() {
    let m = material("dirt", "Dirt", 4.0);
    let copy = m.clone();
    assert_eq!(copy.id, "dirt");
    assert_eq!(copy.albedo.rect.unwrap().position, glam::Vec2::new(4.0, 0.0));
    let t = texture("atlas", "a/b.png").clone();
    assert_eq!(t.source, PathBuf::from("a/b.png"));
}

#[test]
fn lookup_finds_the_last_definition_loaded_into_the_top_pack() {
    let universe = Universe::from_data_packs(
        "u".to_string(),
        vec![
            pack("base", vec![material("dirt", "Base Dirt", 0.0)], vec![]),
            pack("mod", vec![material("dirt", "First Mod Dirt", 8.0), material("dirt", "Last Mod Dirt", 16.0)], vec![]),
        ],
    );
    let dirt = universe.material("dirt".to_string()).unwrap();
    assert_eq!(dirt.display_name, "Last Mod Dirt");
    assert_eq!(dirt.albedo.rect.as_ref().unwrap().position, glam::Vec2::new(16.0, 0.0));
}

#[test]
fn inserting_into_a_filled_map_keeps_places_and_appends_new_ids() {
    let mut p = pack("base", vec![material("dirt", "Dirt", 0.0), material("stone", "Stone", 8.0)], vec![texture("a", "a.png")]);
    insert_material_definitions(
        &mut p.material_definitions,
        vec![material("grass", "Grass", 16.0), material("dirt", "Wet Dirt", 24.0)],
    );
    let names: Vec<(&String, &String)> = p.material_definitions.iter().map(|(k, m)| (k, &m.display_name)).collect();
    assert_eq!(
        names,
        vec![
            (&"dirt".to_string(), &"Wet Dirt".to_string()),
            (&"stone".to_string(), &"Stone".to_string()),
            (&"grass".to_string(), &"Grass".to_string()),
        ]
    );
    insert_texture_definitions(&mut p.texture_definitions, vec![texture("b", "b.png"), texture("a", "a2.png")]);
    let sources: Vec<PathBuf> = p.texture_definitions.values().map(|t| t.source.clone()).collect();
    assert_eq!(sources, vec![PathBuf::from("a2.png"), PathBuf::from("b.png")]);
    insert_block_type_definitions(&mut p.block_definitions, vec![block("x", "dirt")]);
    insert_block_type_definitions(&mut p.block_definitions, vec![block("y", "dirt"), block("x", "stone")]);
    let keys: Vec<&String> = p.block_definitions.keys().collect();
    assert_eq!(keys, vec!["x", "y"]);
    let BlockAppearance::Cuboid { x_min, .. } = &p.block_definitions["x"].appearance;
    assert_eq!(x_min.id, "stone");
}
