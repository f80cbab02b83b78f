use vstd::prelude::*;
use crate::deps::geometry_types::{vec2_from_integers, vec2_of};
use crate::deps::ordered_maps::{
    block_type_entries, block_type_map_insert, block_type_map_new, data_pack_entries,
    data_pack_set_insert, data_pack_set_new, material_entries, material_map_insert,
    material_map_new, texture_entries, texture_map_new, lemma_key_position,
};
use crate::resources::block_type::{BlockAppearance, BlockTypeDefinition};
use crate::resources::data_pack::DataPack;
use crate::resources::material::{MaterialDefinition, MaterialRef};
use crate::resources::texture::{Rect, TextureRef};
use crate::resources::universe::Universe;

verus! {

/// A material whose albedo is the 8x8 square at `(x, 0)` of the main atlas.
pub open spec fn is_atlas_material(m: MaterialDefinition, id: Seq<char>, name: Seq<char>, x: u32) -> bool {
    &&& m.id@ == id
    &&& m.display_name@ == name
    &&& m.albedo.id@ == "toyvox:main-atlas"@
    &&& m.albedo.rect == Some(Rect { position: vec2_from_integers(x, 0), size: vec2_from_integers(8, 8) })
}

/// A cuboid block type with the same material on each of its six faces.
pub open spec fn is_uniform_cuboid(d: BlockTypeDefinition, id: Seq<char>, name: Seq<char>, material: Seq<char>) -> bool {
    &&& d.id@ == id
    &&& d.display_name@ == name
    &&& match d.appearance {
        BlockAppearance::Cuboid { x_min, x_max, y_min, y_max, z_min, z_max } => {
            &&& x_min.id@ == material
            &&& x_max.id@ == material
            &&& y_min.id@ == material
            &&& y_max.id@ == material
            &&& z_min.id@ == material
            &&& z_max.id@ == material
        },
    }
}

fn atlas_material(id: &str, display_name: &str, x: u32) -> (r: MaterialDefinition)
    ensures
        is_atlas_material(r, id@, display_name@, x),
{
    MaterialDefinition {
        id: id.to_string(),
        display_name: display_name.to_string(),
        albedo: TextureRef {
            id: "toyvox:main-atlas".to_string(),
            rect: Some(Rect { position: vec2_of(x, 0), size: vec2_of(8, 8) }),
        },
    }
}

fn uniform_cuboid(id: &str, display_name: &str, material: &str) -> (r: BlockTypeDefinition)
    ensures
        is_uniform_cuboid(r, id@, display_name@, material@),
{
    BlockTypeDefinition {
        id: id.to_string(),
        display_name: display_name.to_string(),
        appearance: BlockAppearance::Cuboid {
            x_min: MaterialRef { id: material.to_string() },
            x_max: MaterialRef { id: material.to_string() },
            y_min: MaterialRef { id: material.to_string() },
            y_max: MaterialRef { id: material.to_string() },
            z_min: MaterialRef { id: material.to_string() },
            z_max: MaterialRef { id: material.to_string() },
        },
    }
}

impl Universe {
    /// The example universe: one pack, "default", with the dirt and grassy dirt
    /// materials of the main atlas, and a dirt and a grassy dirt block type, each a cuboid
    /// of its own material on every face.
    pub fn example() -> (r: Universe)
        ensures
            r.id@ == "example"@,
            r.packs().len() == 1,
            r.packs()[0].id@ == "default"@,
            texture_entries(r.packs()[0].texture_definitions).len() == 0,
            material_entries(r.packs()[0].material_definitions).len() == 2,
            material_entries(r.packs()[0].material_definitions)[0].0 == "toyvox:dirt"@,
            is_atlas_material(material_entries(r.packs()[0].material_definitions)[0].1, "toyvox:dirt"@, "Dirt"@, 0),
            material_entries(r.packs()[0].material_definitions)[1].0 == "toyvox:grassy_dirt"@,
            is_atlas_material(material_entries(r.packs()[0].material_definitions)[1].1, "toyvox:grassy_dirt"@, "Grassy Dirt"@, 8),
            block_type_entries(r.packs()[0].block_definitions).len() == 2,
            block_type_entries(r.packs()[0].block_definitions)[0].0 == "dirt"@,
            is_uniform_cuboid(block_type_entries(r.packs()[0].block_definitions)[0].1, "toyvox:dirt"@, "Dirt"@, "toyvox:dirt"@),
            block_type_entries(r.packs()[0].block_definitions)[1].0 == "grassy_dirt"@,
            is_uniform_cuboid(block_type_entries(r.packs()[0].block_definitions)[1].1, "toyvox:grassy_dirt"@, "Grassy Dirt"@, "toyvox:grassy_dirt"@),
    {
        proof {
            reveal_strlit("toyvox:dirt");
            reveal_strlit("toyvox:grassy_dirt");
            reveal_strlit("dirt");
            reveal_strlit("grassy_dirt");
            assert("toyvox:dirt"@.len() != "toyvox:grassy_dirt"@.len());
            assert("dirt"@.len() != "grassy_dirt"@.len());
        }
        let texture_definitions = texture_map_new();

        let mut material_definitions = material_map_new();
        let dirt_material = atlas_material("toyvox:dirt", "Dirt", 0);
        let grassy_dirt_material = atlas_material("toyvox:grassy_dirt", "Grassy Dirt", 8);
        material_map_insert(&mut material_definitions, "toyvox:dirt".to_string(), dirt_material);
        proof { lemma_key_position(material_entries(material_definitions), "toyvox:grassy_dirt"@); }
        material_map_insert(&mut material_definitions, "toyvox:grassy_dirt".to_string(), grassy_dirt_material);

        let mut block_types = block_type_map_new();
        block_type_map_insert(
            &mut block_types,
            "dirt".to_string(),
            uniform_cuboid("toyvox:dirt", "Dirt", "toyvox:dirt"),
        );
        proof { lemma_key_position(block_type_entries(block_types), "grassy_dirt"@); }
        block_type_map_insert(
            &mut block_types,
            "grassy_dirt".to_string(),
            uniform_cuboid("toyvox:grassy_dirt", "Grassy Dirt", "toyvox:grassy_dirt"),
        );

        let data_pack = DataPack {
            id: "default".to_string(),
            block_definitions: block_types,
            material_definitions,
            texture_definitions,
        };

        let mut data_packs = data_pack_set_new();
        data_pack_set_insert(&mut data_packs, data_pack);

        Universe { id: "example".to_string(), data_packs }
    }
}

} // verus!
