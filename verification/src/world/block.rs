//! # Blocks
//!
//! Within block groups, a block is represented by [`Block`], an index into a global
//! block palette.
use vstd::prelude::*;
use crate::geometry::UVec3;
use crate::resources::Id;
use crate::resources::block_type::{BlockAppearance, BlockTypeDefinition};

verus! {

/// Information about what a given block "is": its identifier, name and appearance.
#[derive(Debug)]
pub struct BlockType {
    pub id: String,
    pub display_name: String,
    pub appearance: BlockAppearance,
}

impl Clone for BlockType {
    fn clone(&self) -> (r: Self)
        ensures
            r == *self,
    {
        BlockType {
            id: self.id.clone(),
            display_name: self.display_name.clone(),
            appearance: self.appearance.clone(),
        }
    }
}

impl Id for BlockType {
    open spec fn id_view(&self) -> Seq<char> {
        self.id@
    }

    fn id(&self) -> (r: String) {
        self.id.clone()
    }
}

/// The block type that a definition describes.
pub open spec fn block_type_of(definition: BlockTypeDefinition) -> BlockType {
    BlockType {
        id: definition.id,
        display_name: definition.display_name,
        appearance: definition.appearance,
    }
}

impl BlockType {
    /// The block type described by `definition`: the same identifier, name and appearance.
    pub fn from_definition(definition: &BlockTypeDefinition) -> (r: Self)
        ensures
            r == block_type_of(*definition),
            r.id == definition.id,
            r.display_name == definition.display_name,
            r.appearance == definition.appearance,
    {
        BlockType {
            id: definition.id.clone(),
            display_name: definition.display_name.clone(),
            appearance: definition.appearance.clone(),
        }
    }
}

/// How a block group takes part in physics.
#[derive(Debug, Clone, Copy, PartialEq, Eq, Structural)]
pub enum PhysicsMode {
    /// Takes no part in collisions.
    Ghostly,
    Static,
    Kinematic,
    Dynamic,
}

/// A single entry in a block group: an index into the block palette.
#[derive(Debug, Clone, Copy, PartialEq, Eq, Structural)]
pub struct Block {
    pub idx_in_palette: u32,
}

/// A collection of blocks that is somewhere in the world.
#[derive(Debug)]
pub struct BlockGroup {
    pub transform: glam::Affine3A,
    pub physics_mode: PhysicsMode,
    pub size: UVec3,
    pub blocks: Vec<Block>,
}

impl BlockGroup {
    /// A block group holds exactly one block per cell of its size.
    pub open spec fn well_formed(&self) -> bool {
        self.blocks@.len() == self.size.cell_count()
    }
}

impl Clone for BlockGroup {
    fn clone(&self) -> (r: Self)
        ensures
            r.transform == self.transform,
            r.physics_mode == self.physics_mode,
            r.size == self.size,
            r.blocks@ == self.blocks@,
    {
        let blocks = self.blocks.clone();
        assert(blocks@ =~= self.blocks@);
        BlockGroup {
            transform: self.transform,
            physics_mode: self.physics_mode,
            size: self.size,
            blocks,
        }
    }
}

/// One value for each of the six faces of a cuboid.
#[derive(Debug, Clone, Copy)]
pub struct PerFace<T> {
    pub x_min: T,
    pub x_max: T,
    pub y_min: T,
    pub y_max: T,
    pub z_min: T,
    pub z_max: T,
}

impl<T> PerFace<T> where T: Clone {
    /// The same value on all six faces: five clones of `value`, and `value` itself last.
    pub fn homogeneous(value: T) -> (r: Self)
        ensures
            cloned(value, r.x_min),
            cloned(value, r.x_max),
            cloned(value, r.y_min),
            cloned(value, r.y_max),
            cloned(value, r.z_min),
            r.z_max == value,
    {
        PerFace {
            x_min: value.clone(),
            x_max: value.clone(),
            y_min: value.clone(),
            y_max: value.clone(),
            z_min: value.clone(),
            z_max: value,
        }
    }
}

/// Palette index of air in the example block group.
pub const AIR: u32 = 0;

/// Palette index of wood in the example block group.
pub const WOOD: u32 = 2;

/// The palette indices of the example 3x3x3 block group, layer by layer.
pub open spec fn example_palette_indices() -> Seq<u32> {
    seq![
        WOOD, AIR, WOOD, WOOD, AIR, WOOD, WOOD, WOOD, WOOD,
        AIR, AIR, AIR, AIR, AIR, AIR, WOOD, WOOD, WOOD,
        WOOD, AIR, WOOD, WOOD, AIR, WOOD, WOOD, WOOD, WOOD,
    ]
}

/// The blocks of the example block group.
pub fn example_blocks() -> (r: Vec<Block>)
    ensures
        r@.len() == 27,
        forall|i: int| 0 <= i < 27 ==> #[trigger] r@[i].idx_in_palette == example_palette_indices()[i],
{
    vec![
        Block { idx_in_palette: WOOD },
        Block { idx_in_palette: AIR },
        Block { idx_in_palette: WOOD },
        Block { idx_in_palette: WOOD },
        Block { idx_in_palette: AIR },
        Block { idx_in_palette: WOOD },
        Block { idx_in_palette: WOOD },
        Block { idx_in_palette: WOOD },
        Block { idx_in_palette: WOOD },
        Block { idx_in_palette: AIR },
        Block { idx_in_palette: AIR },
        Block { idx_in_palette: AIR },
        Block { idx_in_palette: AIR },
        Block { idx_in_palette: AIR },
        Block { idx_in_palette: AIR },
        Block { idx_in_palette: WOOD },
        Block { idx_in_palette: WOOD },
        Block { idx_in_palette: WOOD },
        Block { idx_in_palette: WOOD },
        Block { idx_in_palette: AIR },
        Block { idx_in_palette: WOOD },
        Block { idx_in_palette: WOOD },
        Block { idx_in_palette: AIR },
        Block { idx_in_palette: WOOD },
        Block { idx_in_palette: WOOD },
        Block { idx_in_palette: WOOD },
        Block { idx_in_palette: WOOD },
    ]
}

} // verus!
