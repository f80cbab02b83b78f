use vstd::prelude::*;
use crate::resources::Id;
use crate::resources::material::MaterialRef;

verus! {

/// Defines the appearance of a block.
#[derive(Debug)]
pub enum BlockAppearance {
    /// A cuboid with one material per face.
    Cuboid {
        x_min: MaterialRef,
        x_max: MaterialRef,
        y_min: MaterialRef,
        y_max: MaterialRef,
        z_min: MaterialRef,
        z_max: MaterialRef,
    },
}

impl Clone for BlockAppearance {
    fn clone(&self) -> (r: Self)
        ensures
            r == *self,
    {
        match self {
            BlockAppearance::Cuboid { x_min, x_max, y_min, y_max, z_min, z_max } => {
                BlockAppearance::Cuboid {
                    x_min: x_min.clone(),
                    x_max: x_max.clone(),
                    y_min: y_min.clone(),
                    y_max: y_max.clone(),
                    z_min: z_min.clone(),
                    z_max: z_max.clone(),
                }
            },
        }
    }
}

/// Defines a new kind of block.
#[derive(Debug)]
pub struct BlockTypeDefinition {
    pub id: String,
    pub display_name: String,
    pub appearance: BlockAppearance,
}

impl Clone for BlockTypeDefinition {
    fn clone(&self) -> (r: Self)
        ensures
            r == *self,
    {
        BlockTypeDefinition {
            id: self.id.clone(),
            display_name: self.display_name.clone(),
            appearance: self.appearance.clone(),
        }
    }
}

impl Id for BlockTypeDefinition {
    open spec fn id_view(&self) -> Seq<char> {
        self.id@
    }

    fn id(&self) -> (r: String) {
        self.id.clone()
    }
}

/// Refers to an existing block type.
#[derive(Debug)]
pub struct BlockTypeRef {
    pub id: String,
}

} // verus!
