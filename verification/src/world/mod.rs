//! # Worlds
//!
//! A world is the stage of one's creativity: it uses resources declared in a universe
//! and arranges them together.
use vstd::prelude::*;
use crate::deps::arenas::{block_group_arena_insert, block_group_arena_new, block_group_slots};
use crate::deps::geometry_types::{affine_from_integer_translation, affine_translation};
use crate::deps::ordered_maps::{scene_entries, scene_map_insert, scene_map_new};
use crate::geometry::UVec3;
use crate::world::block::{example_blocks, example_palette_indices, BlockGroup, PhysicsMode};

/// All to do with the blocks you use to create builds and landscapes.
pub mod block;

verus! {

/// A world is a collection of scenes plus some metadata.
#[derive(Debug)]
pub struct World {
    pub id: String,
    pub scenes: indexmap::IndexMap<String, Scene>,
}

/// A scene is a layout with an environment.
#[derive(Debug)]
pub struct Scene {
    pub environment: Environment,
    pub root_layout: Layout,
}

/// The environment of a scene.
#[derive(Debug, Clone, Copy, PartialEq, Eq, Structural)]
pub struct Environment {
    /// Whether the xy plane (z = 0) acts as a solid, impassable floor for physics objects.
    pub xy_plane_is_solid_floor: bool,
}

/// A reusable collection of block groups.
#[derive(Debug)]
pub struct Layout {
    pub block_groups: generational_arena::Arena<BlockGroup>,
}

/// The example block group: a dynamic 3x3x3 group of the example blocks, translated by nothing.
pub open spec fn is_example_block_group(g: BlockGroup) -> bool {
    &&& g.transform == affine_from_integer_translation(0, 0, 0)
    &&& g.physics_mode == PhysicsMode::Dynamic
    &&& g.size == (UVec3 { x: 3, y: 3, z: 3 })
    &&& g.blocks@.len() == 27
    &&& forall|i: int| 0 <= i < 27 ==> #[trigger] g.blocks@[i].idx_in_palette == example_palette_indices()[i]
}

impl World {
    /// The example world: a single scene, "default", with a solid floor and one block
    /// group, the example block group, as its root layout.
    pub fn example() -> (r: World)
        ensures
            r.id@ == "example"@,
            scene_entries(r.scenes).len() == 1,
            scene_entries(r.scenes)[0].0 == "default"@,
            scene_entries(r.scenes)[0].1.environment.xy_plane_is_solid_floor,
            block_group_slots(scene_entries(r.scenes)[0].1.root_layout.block_groups).len() == 1,
            forall|k: (usize, u64)| #[trigger] block_group_slots(scene_entries(r.scenes)[0].1.root_layout.block_groups).contains_key(k)
                ==> is_example_block_group(block_group_slots(scene_entries(r.scenes)[0].1.root_layout.block_groups)[k])
                    && block_group_slots(scene_entries(r.scenes)[0].1.root_layout.block_groups)[k].well_formed(),
    {
        let block_group_0 = BlockGroup {
            transform: affine_translation(0, 0, 0),
            physics_mode: PhysicsMode::Dynamic,
            size: UVec3::new(3, 3, 3),
            blocks: example_blocks(),
        };
        let ghost g = block_group_0;

        let mut block_groups = block_group_arena_new();
        let k = block_group_arena_insert(&mut block_groups, block_group_0);
        assert(block_group_slots(block_groups).dom() =~= set![k]);
        assert(block_group_slots(block_groups).dom().len() == 1);

        let scene = Scene {
            environment: Environment { xy_plane_is_solid_floor: true },
            root_layout: Layout { block_groups },
        };

        let mut scenes = scene_map_new();
        scene_map_insert(&mut scenes, "default".to_string(), scene);

        World { id: "example".to_string(), scenes }
    }
}

} // verus!
