use vstd::prelude::*;
use crate::resources::Id;
use crate::resources::texture::TextureRef;

verus! {

/// Defines a new material.
#[derive(Debug)]
pub struct MaterialDefinition {
    pub id: String,
    pub display_name: String,
    pub albedo: TextureRef,
}

impl Clone for MaterialDefinition {
    fn clone(&self) -> (r: Self)
        ensures
            r == *self,
    {
        MaterialDefinition {
            id: self.id.clone(),
            display_name: self.display_name.clone(),
            albedo: self.albedo.clone(),
        }
    }
}

impl Id for MaterialDefinition {
    open spec fn id_view(&self) -> Seq<char> {
        self.id@
    }

    fn id(&self) -> (r: String) {
        self.id.clone()
    }
}

/// Refers to an existing loaded material.
#[derive(Debug)]
pub struct MaterialRef {
    pub id: String,
}

impl Clone for MaterialRef {
    fn clone(&self) -> (r: Self)
        ensures
            r == *self,
    {
        MaterialRef { id: self.id.clone() }
    }
}

} // verus!
