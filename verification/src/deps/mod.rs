//! Declarations of the outside types this crate carries, and the trusted wrappers
//! through which the verified code calls their crates.

/// `glam` vectors and transforms, carried through opaquely.
pub mod geometry_types;
/// `indexmap` maps and sets that hold the data packs' definitions.
pub mod ordered_maps;
/// Standard-library paths.
pub mod paths;
/// `generational_arena` arenas that hold the block groups of a layout.
pub mod arenas;
/// `dashmap` maps that cache what the client knows.
pub mod concurrent_maps;
