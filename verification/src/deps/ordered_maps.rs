use vstd::prelude::*;
use crate::resources::block_type::BlockTypeDefinition;
use crate::resources::material::MaterialDefinition;
use crate::resources::texture::TextureDefinition;
use crate::resources::data_pack::DataPack;
use crate::world::Scene;

verus! {

/// `indexmap::IndexMap`, whose entries are named per instantiation below.
#[verifier::external_type_specification]
#[verifier::external_body]
#[verifier::reject_recursive_types(K)]
#[verifier::reject_recursive_types(V)]
#[verifier::reject_recursive_types(S)]
pub struct ExIndexMap<K, V, S>(indexmap::IndexMap<K, V, S>);

/// `indexmap::IndexSet`, whose entries are named per instantiation below.
#[verifier::external_type_specification]
#[verifier::external_body]
#[verifier::reject_recursive_types(T)]
#[verifier::reject_recursive_types(S)]
pub struct ExIndexSet<T, S>(indexmap::IndexSet<T, S>);

/// The position of the first entry whose key is `k`, if there is one.
pub open spec fn key_position<V>(entries: Seq<(Seq<char>, V)>, k: Seq<char>) -> Option<int>
    decreases entries.len(),
{
    if entries.len() == 0 {
        None
    } else if entries[0].0 == k {
        Some(0)
    } else {
        match key_position(entries.drop_first(), k) {
            Some(i) => Some(i + 1),
            None => None,
        }
    }
}

/// The entries of an insertion-ordered map after inserting `v` under `k`: an entry with
/// that key keeps its place and takes the new value; otherwise the pair goes last.
pub open spec fn insert_entry<V>(entries: Seq<(Seq<char>, V)>, k: Seq<char>, v: V) -> Seq<(Seq<char>, V)> {
    match key_position(entries, k) {
        Some(i) => entries.update(i, (k, v)),
        None => entries.push((k, v)),
    }
}

/// The value stored under `k`, if any.
pub open spec fn value_at_key<V>(entries: Seq<(Seq<char>, V)>, k: Seq<char>) -> Option<V> {
    match key_position(entries, k) {
        Some(i) => Some(entries[i].1),
        None => None,
    }
}

/// What `key_position` finds: the first entry with the key, or no entry with it.
pub proof fn lemma_key_position<V>(entries: Seq<(Seq<char>, V)>, k: Seq<char>)
    ensures
        match key_position(entries, k) {
            Some(i) => 0 <= i < entries.len() && entries[i].0 == k
                && forall|j: int| 0 <= j < i ==> (#[trigger] entries[j]).0 != k,
            None => forall|j: int| 0 <= j < entries.len() ==> (#[trigger] entries[j]).0 != k,
        },
    decreases entries.len(),
{
    if entries.len() > 0 && entries[0].0 != k {
        lemma_key_position(entries.drop_first(), k);
        match key_position(entries.drop_first(), k) {
            Some(i) => {
                assert forall|j: int| 0 <= j < i + 1 implies (#[trigger] entries[j]).0 != k by {
                    if j > 0 {
                        assert(entries[j] == entries.drop_first()[j - 1]);
                    }
                }
            },
            None => {
                assert forall|j: int| 0 <= j < entries.len() implies (#[trigger] entries[j]).0 != k by {
                    if j > 0 {
                        assert(entries[j] == entries.drop_first()[j - 1]);
                    }
                }
            },
        }
    }
}

/// `key_position` is the first index holding the key.
pub proof fn lemma_key_position_at<V>(entries: Seq<(Seq<char>, V)>, k: Seq<char>, i: int)
    requires
        0 <= i < entries.len(),
        entries[i].0 == k,
        forall|j: int| 0 <= j < i ==> (#[trigger] entries[j]).0 != k,
    ensures
        key_position(entries, k) == Some(i),
{
    lemma_key_position(entries, k);
}

/// Inserting under `k` makes `k` hold `v`, and leaves every other key's value as it was.
pub proof fn lemma_insert_entry_values<V>(entries: Seq<(Seq<char>, V)>, k: Seq<char>, v: V, k2: Seq<char>)
    ensures
        value_at_key(insert_entry(entries, k, v), k2) == if k2 == k { Some(v) } else { value_at_key(entries, k2) },
{
    lemma_key_position(entries, k);
    lemma_key_position(entries, k2);
    let e2 = insert_entry(entries, k, v);
    lemma_key_position(e2, k2);
    match key_position(entries, k) {
        Some(i) => {
            if k2 == k {
                lemma_key_position_at(e2, k2, i);
            } else {
                match key_position(entries, k2) {
                    Some(j) => lemma_key_position_at(e2, k2, j),
                    None => {
                        assert forall|j: int| 0 <= j < e2.len() implies (#[trigger] e2[j]).0 != k2 by {
                            if j != i {
                                assert(e2[j] == entries[j]);
                            }
                        }
                    },
                }
            }
        },
        None => {
            if k2 == k {
                lemma_key_position_at(e2, k2, entries.len() as int);
            } else {
                match key_position(entries, k2) {
                    Some(j) => lemma_key_position_at(e2, k2, j),
                    None => {
                        assert forall|j: int| 0 <= j < e2.len() implies (#[trigger] e2[j]).0 != k2 by {
                            if j < entries.len() {
                                assert(e2[j] == entries[j]);
                            }
                        }
                    },
                }
            }
        },
    }
}

/// Inserting keeps keys distinct.
pub proof fn lemma_insert_entry_distinct<V>(entries: Seq<(Seq<char>, V)>, k: Seq<char>, v: V)
    requires
        forall|i: int, j: int| 0 <= i < j < entries.len() ==> (#[trigger] entries[i]).0 != (#[trigger] entries[j]).0,
    ensures
        forall|i: int, j: int| 0 <= i < j < insert_entry(entries, k, v).len()
            ==> (#[trigger] insert_entry(entries, k, v)[i]).0 != (#[trigger] insert_entry(entries, k, v)[j]).0,
{
    lemma_key_position(entries, k);
    let e2 = insert_entry(entries, k, v);
    match key_position(entries, k) {
        Some(p) => {
            assert forall|i: int, j: int| 0 <= i < j < e2.len() implies (#[trigger] e2[i]).0 != (#[trigger] e2[j]).0 by {
                assert(e2[i].0 == entries[i].0);
                assert(e2[j].0 == entries[j].0);
            }
        },
        None => {
            assert forall|i: int, j: int| 0 <= i < j < e2.len() implies (#[trigger] e2[i]).0 != (#[trigger] e2[j]).0 by {
                if j == entries.len() {
                    assert(e2[i] == entries[i]);
                } else {
                    assert(e2[i] == entries[i]);
                    assert(e2[j] == entries[j]);
                }
            }
        },
    }
}

/// The entries, in order, of a map of block type definitions.
pub uninterp spec fn block_type_entries(m: indexmap::IndexMap<String, BlockTypeDefinition>) -> Seq<(Seq<char>, BlockTypeDefinition)>;

/// The entries, in order, of a map of material definitions.
pub uninterp spec fn material_entries(m: indexmap::IndexMap<String, MaterialDefinition>) -> Seq<(Seq<char>, MaterialDefinition)>;

/// The entries, in order, of a map of texture definitions.
pub uninterp spec fn texture_entries(m: indexmap::IndexMap<String, TextureDefinition>) -> Seq<(Seq<char>, TextureDefinition)>;

/// The data packs, in insertion order, of a set of data packs.
pub uninterp spec fn data_pack_entries(s: indexmap::IndexSet<DataPack>) -> Seq<DataPack>;

// ---- maps of block type definitions ----

/// Calls `IndexMap::new`: a map with no entries.
#[verifier::external_body]
pub(crate) fn block_type_map_new() -> (r: indexmap::IndexMap<String, BlockTypeDefinition>)
    ensures
        block_type_entries(r) == Seq::<(Seq<char>, BlockTypeDefinition)>::empty(),
{
    indexmap::IndexMap::new()
}

/// Calls `IndexMap::insert`: an entry with an equal key keeps its place and gets the
/// new value, which the old value is returned in place of; otherwise the pair goes last
/// and `None` is returned.
#[verifier::external_body]
pub(crate) fn block_type_map_insert(
    m: &mut indexmap::IndexMap<String, BlockTypeDefinition>,
    k: String,
    v: BlockTypeDefinition,
) -> (r: Option<BlockTypeDefinition>)
    ensures
        block_type_entries(*final(m)) == insert_entry(block_type_entries(*old(m)), k@, v),
        r == value_at_key(block_type_entries(*old(m)), k@),
{
    m.insert(k, v)
}

/// Calls `IndexMap::len`: the number of entries.
#[verifier::external_body]
pub(crate) fn block_type_map_len(m: &indexmap::IndexMap<String, BlockTypeDefinition>) -> (r: usize)
    ensures
        r == block_type_entries(*m).len(),
{
    m.len()
}

/// Calls `IndexMap::get_index`: the entry at position `i`, if there is one.
#[verifier::external_body]
pub(crate) fn block_type_map_get_index(m: &indexmap::IndexMap<String, BlockTypeDefinition>, i: usize) -> (r: Option<(&String, &BlockTypeDefinition)>)
    ensures
        i < block_type_entries(*m).len() ==> (r.is_some() && r.unwrap().0@ == block_type_entries(*m)[i as int].0 && *r.unwrap().1 == block_type_entries(*m)[i as int].1),
        i >= block_type_entries(*m).len() ==> r is None,
{
    m.get_index(i)
}

// ---- maps of material definitions ----

/// Calls `IndexMap::new`: a map with no entries.
#[verifier::external_body]
pub(crate) fn material_map_new() -> (r: indexmap::IndexMap<String, MaterialDefinition>)
    ensures
        material_entries(r) == Seq::<(Seq<char>, MaterialDefinition)>::empty(),
{
    indexmap::IndexMap::new()
}

/// Calls `IndexMap::insert`: an entry with an equal key keeps its place and gets the
/// new value, which the old value is returned in place of; otherwise the pair goes last
/// and `None` is returned.
#[verifier::external_body]
pub(crate) fn material_map_insert(
    m: &mut indexmap::IndexMap<String, MaterialDefinition>,
    k: String,
    v: MaterialDefinition,
) -> (r: Option<MaterialDefinition>)
    ensures
        material_entries(*final(m)) == insert_entry(material_entries(*old(m)), k@, v),
        r == value_at_key(material_entries(*old(m)), k@),
{
    m.insert(k, v)
}

/// Calls `IndexMap::len`: the number of entries.
#[verifier::external_body]
pub(crate) fn material_map_len(m: &indexmap::IndexMap<String, MaterialDefinition>) -> (r: usize)
    ensures
        r == material_entries(*m).len(),
{
    m.len()
}

/// Calls `IndexMap::get_index`: the entry at position `i`, if there is one.
#[verifier::external_body]
pub(crate) fn material_map_get_index(m: &indexmap::IndexMap<String, MaterialDefinition>, i: usize) -> (r: Option<(&String, &MaterialDefinition)>)
    ensures
        i < material_entries(*m).len() ==> (r.is_some() && r.unwrap().0@ == material_entries(*m)[i as int].0 && *r.unwrap().1 == material_entries(*m)[i as int].1),
        i >= material_entries(*m).len() ==> r is None,
{
    m.get_index(i)
}

/// Calls `IndexMap::get`: the value stored under the key equal to `k`, if any.
#[verifier::external_body]
pub(crate) fn material_map_get<'a>(m: &'a indexmap::IndexMap<String, MaterialDefinition>, k: &String) -> (r: Option<&'a MaterialDefinition>)
    ensures
        match value_at_key(material_entries(*m), k@) {
            Some(v) => r matches Some(x) && *x == v,
            None => r is None,
        },
{
    m.get(k)
}

// ---- maps of texture definitions ----

/// Calls `IndexMap::new`: a map with no entries.
#[verifier::external_body]
pub(crate) fn texture_map_new() -> (r: indexmap::IndexMap<String, TextureDefinition>)
    ensures
        texture_entries(r) == Seq::<(Seq<char>, TextureDefinition)>::empty(),
{
    indexmap::IndexMap::new()
}

/// Calls `IndexMap::insert`: an entry with an equal key keeps its place and gets the
/// new value, which the old value is returned in place of; otherwise the pair goes last
/// and `None` is returned.
#[verifier::external_body]
pub(crate) fn texture_map_insert(
    m: &mut indexmap::IndexMap<String, TextureDefinition>,
    k: String,
    v: TextureDefinition,
) -> (r: Option<TextureDefinition>)
    ensures
        texture_entries(*final(m)) == insert_entry(texture_entries(*old(m)), k@, v),
        r == value_at_key(texture_entries(*old(m)), k@),
{
    m.insert(k, v)
}

/// Calls `IndexMap::len`: the number of entries.
#[verifier::external_body]
pub(crate) fn texture_map_len(m: &indexmap::IndexMap<String, TextureDefinition>) -> (r: usize)
    ensures
        r == texture_entries(*m).len(),
{
    m.len()
}

/// Calls `IndexMap::get_index`: the entry at position `i`, if there is one.
#[verifier::external_body]
pub(crate) fn texture_map_get_index(m: &indexmap::IndexMap<String, TextureDefinition>, i: usize) -> (r: Option<(&String, &TextureDefinition)>)
    ensures
        i < texture_entries(*m).len() ==> (r.is_some() && r.unwrap().0@ == texture_entries(*m)[i as int].0 && *r.unwrap().1 == texture_entries(*m)[i as int].1),
        i >= texture_entries(*m).len() ==> r is None,
{
    m.get_index(i)
}

/// Calls `IndexMap::get`: the value stored under the key equal to `k`, if any.
#[verifier::external_body]
pub(crate) fn texture_map_get<'a>(m: &'a indexmap::IndexMap<String, TextureDefinition>, k: &String) -> (r: Option<&'a TextureDefinition>)
    ensures
        match value_at_key(texture_entries(*m), k@) {
            Some(v) => r matches Some(x) && *x == v,
            None => r is None,
        },
{
    m.get(k)
}

// ---- maps of scenes ----

/// The entries, in order, of a map of scenes.
pub uninterp spec fn scene_entries(m: indexmap::IndexMap<String, Scene>) -> Seq<(Seq<char>, Scene)>;

/// Calls `IndexMap::new`: a map with no entries.
#[verifier::external_body]
pub(crate) fn scene_map_new() -> (r: indexmap::IndexMap<String, Scene>)
    ensures
        scene_entries(r) == Seq::<(Seq<char>, Scene)>::empty(),
{
    indexmap::IndexMap::new()
}

/// Calls `IndexMap::insert`: an entry with an equal key keeps its place and gets the
/// new value, which the old value is returned in place of; otherwise the pair goes last
/// and `None` is returned.
#[verifier::external_body]
pub(crate) fn scene_map_insert(m: &mut indexmap::IndexMap<String, Scene>, k: String, v: Scene) -> (r: Option<Scene>)
    ensures
        scene_entries(*final(m)) == insert_entry(scene_entries(*old(m)), k@, v),
        r == value_at_key(scene_entries(*old(m)), k@),
{
    m.insert(k, v)
}

// ---- sets of data packs ----

/// Whether some pack in `packs` has the identifier `id`.
pub open spec fn has_pack_with_id(packs: Seq<DataPack>, id: Seq<char>) -> bool {
    exists|i: int| 0 <= i < packs.len() && (#[trigger] packs[i]).id@ == id
}

/// Calls `IndexSet::new`: a set with no packs.
#[verifier::external_body]
pub(crate) fn data_pack_set_new() -> (r: indexmap::IndexSet<DataPack>)
    ensures
        data_pack_entries(r) == Seq::<DataPack>::empty(),
{
    indexmap::IndexSet::new()
}

/// Calls `IndexSet::insert`. Packs are equal, and hash alike, exactly when their
/// identifiers are equal; so a pack whose identifier is already present leaves the set
/// as it was and `false` is returned, and any other pack goes last and `true` is returned.
#[verifier::external_body]
pub(crate) fn data_pack_set_insert(s: &mut indexmap::IndexSet<DataPack>, p: DataPack) -> (r: bool)
    ensures
        r == !has_pack_with_id(data_pack_entries(*old(s)), p.id@),
        r ==> data_pack_entries(*final(s)) == data_pack_entries(*old(s)).push(p),
        !r ==> data_pack_entries(*final(s)) == data_pack_entries(*old(s)),
{
    s.insert(p)
}

/// Calls `IndexSet::len`: the number of packs.
#[verifier::external_body]
pub(crate) fn data_pack_set_len(s: &indexmap::IndexSet<DataPack>) -> (r: usize)
    ensures
        r == data_pack_entries(*s).len(),
{
    s.len()
}

/// Calls `IndexSet::get_index`: the pack at position `i`, if there is one.
#[verifier::external_body]
pub(crate) fn data_pack_set_get_index(s: &indexmap::IndexSet<DataPack>, i: usize) -> (r: Option<&DataPack>)
    ensures
        i < data_pack_entries(*s).len() ==> (r.is_some() && *r.unwrap() == data_pack_entries(*s)[i as int]),
        i >= data_pack_entries(*s).len() ==> r is None,
{
    s.get_index(i)
}

} // verus!
