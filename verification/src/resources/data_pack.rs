use vstd::prelude::*;
use indexmap::IndexMap;
use crate::resources::block_type::BlockTypeDefinition;
use crate::resources::material::MaterialDefinition;
use crate::resources::texture::TextureDefinition;
use crate::resources::Id;
use vstd::std_specs::cmp::PartialEqSpecImpl;
use crate::deps::ordered_maps::{
    block_type_entries, block_type_map_insert, block_type_map_new, insert_entry, key_position,
    material_entries, material_map_insert, material_map_new, texture_entries, texture_map_insert,
    texture_map_new, value_at_key, lemma_insert_entry_values, lemma_insert_entry_distinct,
};

verus! {

/// A collection of resources used to build worlds with.
#[derive(Debug)]
pub struct DataPack {
    pub id: String,
    pub block_definitions: IndexMap<String, BlockTypeDefinition>,
    pub material_definitions: IndexMap<String, MaterialDefinition>,
    pub texture_definitions: IndexMap<String, TextureDefinition>,
}

impl Id for DataPack {
    open spec fn id_view(&self) -> Seq<char> {
        self.id@
    }

    fn id(&self) -> (r: String) {
        self.id.clone()
    }
}

/// Two data packs are the same pack when their identifiers are equal.
impl PartialEq for DataPack {
    fn eq(&self, other: &Self) -> (r: bool) {
        self.id == other.id
    }
}

impl PartialEqSpecImpl for DataPack {
    open spec fn obeys_eq_spec() -> bool {
        true
    }

    open spec fn eq_spec(&self, other: &Self) -> bool {
        self.id@ == other.id@
    }
}

impl Eq for DataPack {}

impl core::hash::Hash for DataPack {
    /// Calls `<String as Hash>::hash` on the identifier alone, so that packs that are
    /// equal hash alike.
    #[verifier::external_body]
    fn hash<H: core::hash::Hasher>(&self, state: &mut H) {
        self.id.hash(state);
    }
}

/// Pairs each definition with its identifier, in order.
pub open spec fn keyed<T: Id>(definitions: Seq<T>) -> Seq<(Seq<char>, T)> {
    definitions.map_values(|d: T| (d.id_view(), d))
}

/// The entries of an insertion-ordered map that starts with `start` and then gets each
/// pair of `pairs` inserted, in order.
pub open spec fn entries_after_inserts<V>(start: Seq<(Seq<char>, V)>, pairs: Seq<(Seq<char>, V)>) -> Seq<(Seq<char>, V)>
    decreases pairs.len(),
{
    if pairs.len() == 0 {
        start
    } else {
        insert_entry(entries_after_inserts(start, pairs.drop_last()), pairs.last().0, pairs.last().1)
    }
}

/// No two entries share a key.
pub open spec fn keys_distinct<V>(entries: Seq<(Seq<char>, V)>) -> bool {
    forall|i: int, j: int| 0 <= i < j < entries.len() ==> (#[trigger] entries[i]).0 != (#[trigger] entries[j]).0
}

/// The definitions of a pack keyed by identifier, as loaded one after the other.
pub open spec fn entries_of_definitions<T: Id>(definitions: Seq<T>) -> Seq<(Seq<char>, T)> {
    entries_after_inserts(Seq::empty(), keyed(definitions))
}

/// The last definition in `definitions` whose identifier is `id`, if any.
pub open spec fn last_with_id<T: Id>(definitions: Seq<T>, id: Seq<char>) -> Option<T>
    decreases definitions.len(),
{
    if definitions.len() == 0 {
        None
    } else if definitions.last().id_view() == id {
        Some(definitions.last())
    } else {
        last_with_id(definitions.drop_last(), id)
    }
}

/// Loading definitions one after the other stores each identifier once.
pub proof fn lemma_loaded_keys_distinct<T: Id>(definitions: Seq<T>)
    ensures
        keys_distinct(entries_of_definitions(definitions)),
    decreases definitions.len(),
{
    if definitions.len() > 0 {
        let rest = definitions.drop_last();
        lemma_loaded_keys_distinct(rest);
        assert(keyed(definitions).drop_last() =~= keyed(rest));
        let d = definitions.last();
        lemma_insert_entry_distinct(entries_of_definitions(rest), d.id_view(), d);
    }
}

/// Loading definitions one after the other: the definition stored under an identifier is
/// the last of them with that identifier, and an identifier none of them has is absent.
pub proof fn lemma_loaded_lookup<T: Id>(definitions: Seq<T>, id: Seq<char>)
    ensures
        value_at_key(entries_of_definitions(definitions), id) == last_with_id(definitions, id),
    decreases definitions.len(),
{
    if definitions.len() > 0 {
        let rest = definitions.drop_last();
        lemma_loaded_lookup(rest, id);
        assert(keyed(definitions).drop_last() =~= keyed(rest));
        let d = definitions.last();
        lemma_insert_entry_values(entries_of_definitions(rest), d.id_view(), d, id);
    }
}

proof fn lemma_keyed_take_step<T: Id>(definitions: Seq<T>, i: int)
    requires
        0 <= i < definitions.len(),
    ensures
        keyed(definitions.take(i + 1)).drop_last() == keyed(definitions.take(i)),
        keyed(definitions.take(i + 1)).last() == (definitions[i].id_view(), definitions[i]),
        keyed(definitions.take(i + 1)).len() == i + 1,
{
    assert(keyed(definitions.take(i + 1)).drop_last() =~= keyed(definitions.take(i)));
}

/// Inserts each texture definition into `target` under its own identifier, in order: an
/// identifier already present keeps its place and takes the later definition, a new one
/// goes last.
pub fn insert_texture_definitions(target: &mut indexmap::IndexMap<String, TextureDefinition>, definitions: Vec<TextureDefinition>)
    ensures
        texture_entries(*final(target)) == entries_after_inserts(texture_entries(*old(target)), keyed(definitions@)),
{
    let ghost start = texture_entries(*target);
    let mut i: usize = 0;
    while i < definitions.len()
        invariant
            i <= definitions@.len(),
            texture_entries(*target) == entries_after_inserts(start, keyed(definitions@.take(i as int))),
        decreases definitions@.len() - i,
    {
        let d = definitions[i].clone();
        proof { lemma_keyed_take_step(definitions@, i as int); }
        texture_map_insert(target, d.id(), d);
        i = i + 1;
    }
    assert(definitions@.take(definitions@.len() as int) == definitions@);
}

/// Inserts each material definition into `target` under its own identifier, in order: an
/// identifier already present keeps its place and takes the later definition, a new one
/// goes last.
pub fn insert_material_definitions(target: &mut indexmap::IndexMap<String, MaterialDefinition>, definitions: Vec<MaterialDefinition>)
    ensures
        material_entries(*final(target)) == entries_after_inserts(material_entries(*old(target)), keyed(definitions@)),
{
    let ghost start = material_entries(*target);
    let mut i: usize = 0;
    while i < definitions.len()
        invariant
            i <= definitions@.len(),
            material_entries(*target) == entries_after_inserts(start, keyed(definitions@.take(i as int))),
        decreases definitions@.len() - i,
    {
        let d = definitions[i].clone();
        proof { lemma_keyed_take_step(definitions@, i as int); }
        material_map_insert(target, d.id(), d);
        i = i + 1;
    }
    assert(definitions@.take(definitions@.len() as int) == definitions@);
}

/// Inserts each block type definition into `target` under its own identifier, in order:
/// an identifier already present keeps its place and takes the later definition, a new
/// one goes last.
pub fn insert_block_type_definitions(target: &mut indexmap::IndexMap<String, BlockTypeDefinition>, definitions: Vec<BlockTypeDefinition>)
    ensures
        block_type_entries(*final(target)) == entries_after_inserts(block_type_entries(*old(target)), keyed(definitions@)),
{
    let ghost start = block_type_entries(*target);
    let mut i: usize = 0;
    while i < definitions.len()
        invariant
            i <= definitions@.len(),
            block_type_entries(*target) == entries_after_inserts(start, keyed(definitions@.take(i as int))),
        decreases definitions@.len() - i,
    {
        let d = definitions[i].clone();
        proof { lemma_keyed_take_step(definitions@, i as int); }
        block_type_map_insert(target, d.id(), d);
        i = i + 1;
    }
    assert(definitions@.take(definitions@.len() as int) == definitions@);
}

impl DataPack {
    /// The pack named `id` whose textures, materials and block types are the given
    /// definitions, each stored under its own identifier in the order given; a later
    /// definition with an identifier seen before replaces the earlier one in its place.
    pub fn from_definitions(
        id: String,
        textures: Vec<TextureDefinition>,
        materials: Vec<MaterialDefinition>,
        blocks: Vec<BlockTypeDefinition>,
    ) -> (r: DataPack)
        ensures
            r.id == id,
            texture_entries(r.texture_definitions) == entries_of_definitions(textures@),
            material_entries(r.material_definitions) == entries_of_definitions(materials@),
            block_type_entries(r.block_definitions) == entries_of_definitions(blocks@),
    {
        let mut texture_definitions = texture_map_new();
        insert_texture_definitions(&mut texture_definitions, textures);
        let mut material_definitions = material_map_new();
        insert_material_definitions(&mut material_definitions, materials);
        let mut block_definitions = block_type_map_new();
        insert_block_type_definitions(&mut block_definitions, blocks);
        DataPack { id, block_definitions, material_definitions, texture_definitions }
    }
}

} // verus!
