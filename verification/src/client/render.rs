//! What the renderer draws from: plain data prepared on the CPU before it is uploaded.
use vstd::prelude::*;
use crate::resources::block_type::BlockAppearance;
use crate::resources::material::MaterialDefinition;
use crate::resources::texture::Rect;
use crate::resources::universe::{all_block_types, all_materials, Universe};
use crate::world::block::{Block, BlockType};

verus! {

/// The render state of a scene's environment (nothing for now).
#[derive(Debug)]
pub struct EnvironmentRenderState {}

/// The render state of a world.
#[derive(Debug)]
pub struct WorldRenderView {}

/// One block of a block group, as the GPU reads it: an index into the block palette.
#[derive(Debug, Clone, Copy, PartialEq, Eq, Structural)]
pub struct BlockView {
    pub idx_in_palette: u32,
}

/// One entry of a block appearance palette.
#[derive(Debug, Clone, Copy, PartialEq, Eq, Structural)]
pub struct BlockAppearanceEntry {
    pub idx_in_palette: u32,
}

/// The blocks of a block group as the GPU reads them, one for each block, in order.
pub fn block_views(blocks: &Vec<Block>) -> (r: Vec<BlockView>)
    ensures
        r@.len() == blocks@.len(),
        forall|i: int| 0 <= i < blocks@.len() ==> #[trigger] r@[i].idx_in_palette == blocks@[i].idx_in_palette,
{
    let mut out: Vec<BlockView> = Vec::new();
    let mut i: usize = 0;
    while i < blocks.len()
        invariant
            i <= blocks@.len(),
            out@.len() == i,
            forall|j: int| 0 <= j < i ==> #[trigger] out@[j].idx_in_palette == blocks@[j].idx_in_palette,
        decreases blocks@.len() - i,
    {
        out.push(BlockView { idx_in_palette: blocks[i].idx_in_palette });
        i = i + 1;
    }
    out
}

/// The first material in `materials` whose identifier is `id`, if any.
pub open spec fn first_material_with_id(materials: Seq<MaterialDefinition>, id: Seq<char>) -> Option<MaterialDefinition>
    decreases materials.len(),
{
    if materials.len() == 0 {
        None
    } else if materials[0].id@ == id {
        Some(materials[0])
    } else {
        first_material_with_id(materials.drop_first(), id)
    }
}

/// The identifier of the material on the `x_min` face of a block type.
pub open spec fn x_min_material_id(block_type: BlockType) -> Seq<char> {
    match block_type.appearance {
        BlockAppearance::Cuboid { x_min, .. } => x_min.id@,
    }
}

/// Every block type whose `x_min` material is found has a rectangle in that material's albedo.
pub open spec fn found_materials_have_rects(block_types: Seq<BlockType>, materials: Seq<MaterialDefinition>) -> bool {
    forall|i: int| 0 <= i < block_types.len() ==>
        ((#[trigger] first_material_with_id(materials, x_min_material_id(block_types[i]))) is Some
            ==> first_material_with_id(materials, x_min_material_id(block_types[i])).unwrap().albedo.rect is Some)
}

/// For each block type in order whose `x_min` material is found, the albedo rectangle of
/// the first material with that identifier; block types whose material is missing are
/// skipped.
pub open spec fn appearance_rects(block_types: Seq<BlockType>, materials: Seq<MaterialDefinition>) -> Seq<Rect>
    decreases block_types.len(),
{
    if block_types.len() == 0 {
        Seq::empty()
    } else {
        let before = appearance_rects(block_types.drop_last(), materials);
        match first_material_with_id(materials, x_min_material_id(block_types.last())) {
            Some(m) => before.push(m.albedo.rect.unwrap()),
            None => before,
        }
    }
}

/// Whether the `x_min` material of a block type is found among `materials`.
pub open spec fn material_found(materials: Seq<MaterialDefinition>) -> spec_fn(BlockType) -> bool {
    |b: BlockType| first_material_with_id(materials, x_min_material_id(b)) is Some
}

/// The albedo rectangle of the material found for a block type.
pub open spec fn found_rect(materials: Seq<MaterialDefinition>) -> spec_fn(BlockType) -> Rect {
    |b: BlockType| first_material_with_id(materials, x_min_material_id(b)).unwrap().albedo.rect.unwrap()
}

/// What the lookup by identifier finds: the first material with that identifier, or
/// nothing when no material has it.
pub proof fn lemma_first_material_with_id(materials: Seq<MaterialDefinition>, id: Seq<char>)
    ensures
        match first_material_with_id(materials, id) {
            Some(m) => exists|i: int| 0 <= i < materials.len() && materials[i] == m && m.id@ == id
                && forall|j: int| 0 <= j < i ==> (#[trigger] materials[j]).id@ != id,
            None => forall|j: int| 0 <= j < materials.len() ==> (#[trigger] materials[j]).id@ != id,
        },
    decreases materials.len(),
{
    if materials.len() > 0 {
        let rest = materials.drop_first();
        lemma_first_material_with_id(rest, id);
        if materials[0].id@ == id {
            assert(materials[0] == materials[0]);
        } else {
            match first_material_with_id(rest, id) {
                Some(m) => {
                    let i = choose|i: int| 0 <= i < rest.len() && rest[i] == m && m.id@ == id
                        && forall|j: int| 0 <= j < i ==> (#[trigger] rest[j]).id@ != id;
                    assert(materials[i + 1] == m);
                    assert forall|j: int| 0 <= j < i + 1 implies (#[trigger] materials[j]).id@ != id by {
                        if j > 0 {
                            assert(materials[j] == rest[j - 1]);
                        }
                    }
                },
                None => {
                    assert forall|j: int| 0 <= j < materials.len() implies (#[trigger] materials[j]).id@ != id by {
                        if j > 0 {
                            assert(materials[j] == rest[j - 1]);
                        }
                    }
                },
            }
        }
    }
}

/// The rectangles are, in order, those of exactly the block types whose `x_min` material
/// is found, one each, whatever the block types around them.
pub proof fn lemma_appearance_rects_one_per_found_block_type(block_types: Seq<BlockType>, materials: Seq<MaterialDefinition>)
    ensures
        appearance_rects(block_types, materials)
            == block_types.filter(material_found(materials)).map_values(found_rect(materials)),
        appearance_rects(block_types, materials).len() == block_types.filter(material_found(materials)).len(),
    decreases block_types.len(),
{
    let f = material_found(materials);
    let g = found_rect(materials);
    if block_types.len() == 0 {
        assert(block_types.filter(f) =~= Seq::<BlockType>::empty()) by {
            reveal(Seq::filter);
        }
        assert(block_types.filter(f).map_values(g) =~= Seq::<Rect>::empty());
    } else {
        let rest = block_types.drop_last();
        let b = block_types.last();
        lemma_appearance_rects_one_per_found_block_type(rest, materials);
        assert(rest.push(b) =~= block_types);
        rest.lemma_filter_push(b, f);
        if f(b) {
            assert(rest.filter(f).push(b).map_values(g) =~= rest.filter(f).map_values(g).push(g(b)));
        }
    }
}

/// Adding one more block type adds its rectangle when its material is found, and nothing
/// otherwise, whatever the block types before it.
pub proof fn lemma_one_more_block_type(block_types: Seq<BlockType>, b: BlockType, materials: Seq<MaterialDefinition>)
    ensures
        appearance_rects(block_types.push(b), materials) == match first_material_with_id(materials, x_min_material_id(b)) {
            Some(m) => appearance_rects(block_types, materials).push(m.albedo.rect.unwrap()),
            None => appearance_rects(block_types, materials),
        },
{
    lemma_appearance_rects_one_per_found_block_type(block_types, materials);
    lemma_appearance_rects_one_per_found_block_type(block_types.push(b), materials);
    let f = material_found(materials);
    let g = found_rect(materials);
    block_types.lemma_filter_push(b, f);
    if f(b) {
        assert(block_types.filter(f).push(b).map_values(g) =~= block_types.filter(f).map_values(g).push(g(b)));
    }
}

/// At most one rectangle per block type.
pub proof fn lemma_appearance_rects_len(block_types: Seq<BlockType>, materials: Seq<MaterialDefinition>)
    ensures
        appearance_rects(block_types, materials).len() <= block_types.len(),
    decreases block_types.len(),
{
    if block_types.len() > 0 {
        lemma_appearance_rects_len(block_types.drop_last(), materials);
    }
}

fn find_material<'a>(materials: &'a Vec<MaterialDefinition>, id: &String) -> (r: Option<&'a MaterialDefinition>)
    ensures
        match first_material_with_id(materials@, id@) {
            Some(m) => r matches Some(x) && *x == m,
            None => r is None,
        },
{
    let mut i: usize = 0;
    assert(materials@.skip(0) =~= materials@);
    while i < materials.len()
        invariant
            i <= materials@.len(),
            first_material_with_id(materials@.skip(i as int), id@) == first_material_with_id(materials@, id@),
        decreases materials@.len() - i,
    {
        assert(materials@.skip(i as int).drop_first() =~= materials@.skip(i + 1));
        if materials[i].id == *id {
            return Some(&materials[i]);
        }
        i = i + 1;
    }
    None
}

/// The atlas rectangles the renderer uses for the given block types: each block type is
/// drawn with the material on its `x_min` face, looked up by identifier among
/// `materials`. The albedo of each material found must name a rectangle.
pub fn block_appearance_rects(block_types: &Vec<BlockType>, materials: &Vec<MaterialDefinition>) -> (r: Vec<Rect>)
    requires
        found_materials_have_rects(block_types@, materials@),
    ensures
        r@ == appearance_rects(block_types@, materials@),
        r@.len() <= block_types@.len(),
        r@ == block_types@.filter(material_found(materials@)).map_values(found_rect(materials@)),
{
    proof {
        lemma_appearance_rects_len(block_types@, materials@);
        lemma_appearance_rects_one_per_found_block_type(block_types@, materials@);
    }
    let mut out: Vec<Rect> = Vec::new();
    let mut i: usize = 0;
    while i < block_types.len()
        invariant
            i <= block_types@.len(),
            found_materials_have_rects(block_types@, materials@),
            out@ == appearance_rects(block_types@.take(i as int), materials@),
        decreases block_types@.len() - i,
    {
        assert(block_types@.take(i + 1).drop_last() =~= block_types@.take(i as int));
        let material_ref = match &block_types[i].appearance {
            BlockAppearance::Cuboid { x_min, .. } => x_min,
        };
        if let Some(material) = find_material(materials, &material_ref.id) {
            assert(first_material_with_id(materials@, x_min_material_id(block_types@[i as int])) is Some);
            let rect = match &material.albedo.rect {
                Some(rect) => rect.clone(),
                None => {
                    assert(false);
                    return out;
                },
            };
            out.push(rect);
        }
        i = i + 1;
    }
    assert(block_types@.take(block_types@.len() as int) =~= block_types@);
    out
}

/// Where in the texture atlas the renderer finds a block type's appearance.
#[derive(Debug, Clone, Copy)]
pub struct RenderMaterialView {
    pub atlas_position: glam::Vec2,
    pub atlas_size: glam::Vec2,
}

/// The material view of each atlas rectangle, in order.
pub open spec fn material_views(rects: Seq<Rect>) -> Seq<RenderMaterialView> {
    rects.map_values(|r: Rect| RenderMaterialView { atlas_position: r.position, atlas_size: r.size })
}

/// The renderer's view of a universe: what it needs to understand the palette indices of
/// block group data (the part of it that lives on the CPU).
#[derive(Debug)]
pub struct UniverseRenderView {
    pub block_definition_appearances: Vec<RenderMaterialView>,
}

impl UniverseRenderView {
    /// The renderer's view of `universe`: for each of its block types in order, the atlas
    /// rectangle of the first of its cloned materials whose identifier is that of the block
    /// type's `x_min` material; block types whose material is missing are skipped, so there
    /// are at most as many appearances as block types. Each material found must name a
    /// rectangle.
    pub fn new(universe: &Universe) -> (r: Self)
        requires
            found_materials_have_rects(all_block_types(universe.packs()), all_materials(universe.packs())),
        ensures
            r.block_definition_appearances@ == material_views(
                appearance_rects(all_block_types(universe.packs()), all_materials(universe.packs())),
            ),
            r.block_definition_appearances@.len() <= all_block_types(universe.packs()).len(),
            r.block_definition_appearances@.len()
                == all_block_types(universe.packs()).filter(material_found(all_materials(universe.packs()))).len(),
    {
        proof {
            lemma_appearance_rects_one_per_found_block_type(all_block_types(universe.packs()), all_materials(universe.packs()));
        }
        let block_types = universe.block_types();
        let materials = universe.materials_cloned();
        let rects = block_appearance_rects(&block_types, &materials);
        let mut views: Vec<RenderMaterialView> = Vec::new();
        let mut i: usize = 0;
        while i < rects.len()
            invariant
                i <= rects@.len(),
                views@ == material_views(rects@.take(i as int)),
            decreases rects@.len() - i,
        {
            views.push(RenderMaterialView { atlas_position: rects[i].position, atlas_size: rects[i].size });
            assert(material_views(rects@.take(i + 1)) =~= material_views(rects@.take(i as int)).push(
                RenderMaterialView { atlas_position: rects@[i as int].position, atlas_size: rects@[i as int].size },
            ));
            i = i + 1;
        }
        assert(rects@.take(rects@.len() as int) =~= rects@);
        UniverseRenderView { block_definition_appearances: views }
    }
}

} // verus!
