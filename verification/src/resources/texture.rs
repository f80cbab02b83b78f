use vstd::prelude::*;
use crate::deps::paths::clone_path;
use crate::resources::Id;

verus! {

/// A humble rectangle in a texture atlas.
#[derive(Debug)]
pub struct Rect {
    pub position: glam::Vec2,
    pub size: glam::Vec2,
}

impl Clone for Rect {
    fn clone(&self) -> (r: Self)
        ensures
            r == *self,
    {
        Rect { position: self.position, size: self.size }
    }
}

/// Defines a new texture.
#[derive(Debug)]
pub struct TextureDefinition {
    pub id: String,
    pub display_name: String,
    pub source: std::path::PathBuf,
}

impl Clone for TextureDefinition {
    fn clone(&self) -> (r: Self)
        ensures
            r == *self,
    {
        TextureDefinition {
            id: self.id.clone(),
            display_name: self.display_name.clone(),
            source: clone_path(&self.source),
        }
    }
}

impl Id for TextureDefinition {
    open spec fn id_view(&self) -> Seq<char> {
        self.id@
    }

    fn id(&self) -> (r: String) {
        self.id.clone()
    }
}

/// Refers to an existing loaded texture, optionally to a rectangle within it.
#[derive(Debug)]
pub struct TextureRef {
    pub id: String,
    pub rect: Option<Rect>,
}

impl Clone for TextureRef {
    fn clone(&self) -> (r: Self)
        ensures
            r == *self,
    {
        let rect = match &self.rect {
            Some(rect) => Some(rect.clone()),
            None => None,
        };
        TextureRef { id: self.id.clone(), rect }
    }
}

} // verus!
