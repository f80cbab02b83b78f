use vstd::prelude::*;
use crate::deps::ordered_maps::{
    block_type_entries, block_type_map_get_index, block_type_map_len, data_pack_entries,
    data_pack_set_get_index, data_pack_set_insert, data_pack_set_len, data_pack_set_new,
    has_pack_with_id, material_entries, material_map_get, material_map_get_index,
    material_map_len, texture_entries, texture_map_get, texture_map_get_index, texture_map_len,
    value_at_key, lemma_key_position,
};
use crate::resources::data_pack::{entries_of_definitions, last_with_id, lemma_loaded_lookup, DataPack};
use crate::resources::material::MaterialDefinition;
use crate::resources::texture::TextureDefinition;
use crate::world::block::{block_type_of, BlockType};

verus! {

/// A universe: data packs stacked in order, later packs taking precedence over earlier ones.
#[derive(Debug)]
pub struct Universe {
    pub id: String,
    pub data_packs: indexmap::IndexSet<DataPack>,
}

/// The values of a sequence of entries, in order.
pub open spec fn entry_values<V>(entries: Seq<(Seq<char>, V)>) -> Seq<V> {
    entries.map_values(|e: (Seq<char>, V)| e.1)
}

/// The packs of a set that starts with `start` and then gets each of `packs` inserted in
/// order: a pack whose identifier is already present is left out.
pub open spec fn packs_after_inserts(start: Seq<DataPack>, packs: Seq<DataPack>) -> Seq<DataPack>
    decreases packs.len(),
{
    if packs.len() == 0 {
        start
    } else {
        let before = packs_after_inserts(start, packs.drop_last());
        if has_pack_with_id(before, packs.last().id@) {
            before
        } else {
            before.push(packs.last())
        }
    }
}

/// The material stored under `id` in the last of `packs` that has one.
pub open spec fn material_lookup(packs: Seq<DataPack>, id: Seq<char>) -> Option<MaterialDefinition>
    decreases packs.len(),
{
    if packs.len() == 0 {
        None
    } else {
        match value_at_key(material_entries(packs.last().material_definitions), id) {
            Some(m) => Some(m),
            None => material_lookup(packs.drop_last(), id),
        }
    }
}

/// The texture stored under `id` in the last of `packs` that has one.
pub open spec fn texture_lookup(packs: Seq<DataPack>, id: Seq<char>) -> Option<TextureDefinition>
    decreases packs.len(),
{
    if packs.len() == 0 {
        None
    } else {
        match value_at_key(texture_entries(packs.last().texture_definitions), id) {
            Some(t) => Some(t),
            None => texture_lookup(packs.drop_last(), id),
        }
    }
}

/// Every material of every pack: pack by pack, each in its pack's order.
pub open spec fn all_materials(packs: Seq<DataPack>) -> Seq<MaterialDefinition>
    decreases packs.len(),
{
    if packs.len() == 0 {
        Seq::empty()
    } else {
        all_materials(packs.drop_last()) + entry_values(material_entries(packs.last().material_definitions))
    }
}

/// Every texture of every pack: pack by pack, each in its pack's order.
pub open spec fn all_textures(packs: Seq<DataPack>) -> Seq<TextureDefinition>
    decreases packs.len(),
{
    if packs.len() == 0 {
        Seq::empty()
    } else {
        all_textures(packs.drop_last()) + entry_values(texture_entries(packs.last().texture_definitions))
    }
}

/// The block type of every block definition of every pack: pack by pack, each in its
/// pack's order.
pub open spec fn all_block_types(packs: Seq<DataPack>) -> Seq<BlockType>
    decreases packs.len(),
{
    if packs.len() == 0 {
        Seq::empty()
    } else {
        all_block_types(packs.drop_last())
            + entry_values(block_type_entries(packs.last().block_definitions)).map_values(|d| block_type_of(d))
    }
}

proof fn lemma_take_step<A>(s: Seq<A>, i: int)
    requires
        0 <= i < s.len(),
    ensures
        s.take(i + 1).drop_last() == s.take(i),
        s.take(i + 1).last() == s[i],
        s.take(i + 1).len() == i + 1,
{
    assert(s.take(i + 1).drop_last() =~= s.take(i));
}

proof fn lemma_values_take_step<V>(entries: Seq<(Seq<char>, V)>, j: int)
    requires
        0 <= j < entries.len(),
    ensures
        entry_values(entries).take(j + 1) == entry_values(entries).take(j).push(entries[j].1),
{
    assert(entry_values(entries).take(j + 1) =~= entry_values(entries).take(j).push(entries[j].1));
}

/// Stacking a pack on top: what the new pack defines under `id` wins; what it does not
/// define is looked up in the packs below, as before.
pub proof fn lemma_top_pack_takes_precedence(packs: Seq<DataPack>, top: DataPack, id: Seq<char>)
    ensures
        material_lookup(packs.push(top), id) == match value_at_key(material_entries(top.material_definitions), id) {
            Some(m) => Some(m),
            None => material_lookup(packs, id),
        },
        texture_lookup(packs.push(top), id) == match value_at_key(texture_entries(top.texture_definitions), id) {
            Some(t) => Some(t),
            None => texture_lookup(packs, id),
        },
{
    assert(packs.push(top).drop_last() =~= packs);
}

/// Looking a material up in a universe whose top pack was loaded from `materials` gives the
/// last of them with that identifier, when there is one.
pub proof fn lemma_lookup_finds_last_loaded_material(
    packs: Seq<DataPack>,
    top: DataPack,
    materials: Seq<MaterialDefinition>,
    id: Seq<char>,
)
    requires
        material_entries(top.material_definitions) == entries_of_definitions(materials),
        last_with_id(materials, id) is Some,
    ensures
        material_lookup(packs.push(top), id) == last_with_id(materials, id),
{
    lemma_loaded_lookup(materials, id);
    lemma_top_pack_takes_precedence(packs, top, id);
}

proof fn lemma_value_at_key_listed<V>(entries: Seq<(Seq<char>, V)>, k: Seq<char>)
    ensures
        value_at_key(entries, k) matches Some(v) ==> entry_values(entries).contains(v),
{
    lemma_key_position(entries, k);
    if let Some(i) = crate::deps::ordered_maps::key_position(entries, k) {
        assert(entry_values(entries)[i] == entries[i].1);
    }
}

/// A material found by lookup is one of the materials listed by the universe.
pub proof fn lemma_found_material_is_listed(packs: Seq<DataPack>, id: Seq<char>)
    ensures
        material_lookup(packs, id) matches Some(m) ==> all_materials(packs).contains(m),
    decreases packs.len(),
{
    if packs.len() > 0 {
        let entries = material_entries(packs.last().material_definitions);
        lemma_value_at_key_listed(entries, id);
        lemma_found_material_is_listed(packs.drop_last(), id);
        let before = all_materials(packs.drop_last());
        let all = all_materials(packs);
        assert(all == before + entry_values(entries));
        if let Some(m) = material_lookup(packs, id) {
            match value_at_key(entries, id) {
                Some(v) => {
                    let j = choose|j: int| 0 <= j < entry_values(entries).len() && entry_values(entries)[j] == v;
                    assert(all[before.len() + j] == v);
                },
                None => {
                    let j = choose|j: int| 0 <= j < before.len() && before[j] == m;
                    assert(all[j] == m);
                },
            }
        }
    }
}

/// A texture found by lookup is one of the textures listed by the universe.
pub proof fn lemma_found_texture_is_listed(packs: Seq<DataPack>, id: Seq<char>)
    ensures
        texture_lookup(packs, id) matches Some(t) ==> all_textures(packs).contains(t),
    decreases packs.len(),
{
    if packs.len() > 0 {
        let entries = texture_entries(packs.last().texture_definitions);
        lemma_value_at_key_listed(entries, id);
        lemma_found_texture_is_listed(packs.drop_last(), id);
        let before = all_textures(packs.drop_last());
        let all = all_textures(packs);
        assert(all == before + entry_values(entries));
        if let Some(t) = texture_lookup(packs, id) {
            match value_at_key(entries, id) {
                Some(v) => {
                    let j = choose|j: int| 0 <= j < entry_values(entries).len() && entry_values(entries)[j] == v;
                    assert(all[before.len() + j] == v);
                },
                None => {
                    let j = choose|j: int| 0 <= j < before.len() && before[j] == t;
                    assert(all[j] == t);
                },
            }
        }
    }
}

/// A material is found under `id` exactly when some pack defines `id`.
pub proof fn lemma_material_found_iff_defined(packs: Seq<DataPack>, id: Seq<char>)
    ensures
        material_lookup(packs, id) is Some <==> exists|i: int|
            0 <= i < packs.len() && #[trigger] value_at_key(material_entries(packs[i].material_definitions), id) is Some,
    decreases packs.len(),
{
    if packs.len() > 0 {
        let rest = packs.drop_last();
        lemma_material_found_iff_defined(rest, id);
        if exists|i: int| 0 <= i < rest.len() && #[trigger] value_at_key(material_entries(rest[i].material_definitions), id) is Some {
            let i = choose|i: int| 0 <= i < rest.len() && #[trigger] value_at_key(material_entries(rest[i].material_definitions), id) is Some;
            assert(packs[i] == rest[i]);
        }
        if exists|i: int| 0 <= i < packs.len() && #[trigger] value_at_key(material_entries(packs[i].material_definitions), id) is Some {
            let i = choose|i: int| 0 <= i < packs.len() && #[trigger] value_at_key(material_entries(packs[i].material_definitions), id) is Some;
            if i < rest.len() {
                assert(packs[i] == rest[i]);
            }
        }
    }
}

/// The packs of a universe built from a list have pairwise distinct identifiers, and
/// each comes from the list.
pub proof fn lemma_universe_pack_ids_distinct(packs: Seq<DataPack>)
    ensures
        forall|i: int, j: int| 0 <= i < j < packs_after_inserts(Seq::empty(), packs).len()
            ==> (#[trigger] packs_after_inserts(Seq::empty(), packs)[i]).id@ != (#[trigger] packs_after_inserts(Seq::empty(), packs)[j]).id@,
        forall|i: int| 0 <= i < packs_after_inserts(Seq::empty(), packs).len()
            ==> packs.contains(#[trigger] packs_after_inserts(Seq::empty(), packs)[i]),
    decreases packs.len(),
{
    if packs.len() > 0 {
        let rest = packs.drop_last();
        lemma_universe_pack_ids_distinct(rest);
        let before = packs_after_inserts(Seq::empty(), rest);
        let after = packs_after_inserts(Seq::empty(), packs);
        assert forall|i: int| 0 <= i < after.len() implies packs.contains(#[trigger] after[i]) by {
            if i < before.len() {
                assert(after[i] == before[i]);
                let k = choose|k: int| 0 <= k < rest.len() && rest[k] == before[i];
                assert(packs[k] == rest[k]);
            } else {
                assert(after[i] == packs[packs.len() - 1]);
            }
        }
        assert forall|i: int, j: int| 0 <= i < j < after.len() implies (#[trigger] after[i]).id@ != (#[trigger] after[j]).id@ by {
            if j < before.len() {
                assert(after[i] == before[i] && after[j] == before[j]);
            } else {
                assert(after[i] == before[i]);
                assert(!has_pack_with_id(before, packs.last().id@));
            }
        }
    }
}

/// Packs with pairwise distinct identifiers all stay, in the order listed.
pub proof fn lemma_distinct_packs_kept_in_order(packs: Seq<DataPack>)
    requires
        forall|i: int, j: int| 0 <= i < j < packs.len() ==> (#[trigger] packs[i]).id@ != (#[trigger] packs[j]).id@,
    ensures
        packs_after_inserts(Seq::empty(), packs) == packs,
    decreases packs.len(),
{
    if packs.len() > 0 {
        let rest = packs.drop_last();
        assert forall|i: int, j: int| 0 <= i < j < rest.len() implies (#[trigger] rest[i]).id@ != (#[trigger] rest[j]).id@ by {
            assert(rest[i] == packs[i] && rest[j] == packs[j]);
        }
        lemma_distinct_packs_kept_in_order(rest);
        if has_pack_with_id(rest, packs.last().id@) {
            let k = choose|k: int| 0 <= k < rest.len() && (#[trigger] rest[k]).id@ == packs.last().id@;
            assert(rest[k] == packs[k]);
            assert(packs[k].id@ != packs[packs.len() - 1].id@);
        }
        assert(rest.push(packs.last()) =~= packs);
    }
}

/// Adding one more pack to the list: a pack whose identifier is new goes last, and one
/// whose identifier is already present leaves the universe's packs as they were.
pub proof fn lemma_one_more_pack(start: Seq<DataPack>, packs: Seq<DataPack>, p: DataPack)
    ensures
        packs_after_inserts(start, packs.push(p)) == if has_pack_with_id(packs_after_inserts(start, packs), p.id@) {
            packs_after_inserts(start, packs)
        } else {
            packs_after_inserts(start, packs).push(p)
        },
{
    assert(packs.push(p).drop_last() =~= packs);
}

/// Listing packs `a` then `b` is inserting `b` into the universe made of `a`.
pub proof fn lemma_packs_listed_in_two_parts(a: Seq<DataPack>, b: Seq<DataPack>)
    ensures
        packs_after_inserts(Seq::empty(), a + b) == packs_after_inserts(packs_after_inserts(Seq::empty(), a), b),
    decreases b.len(),
{
    if b.len() == 0 {
        assert(a + b =~= a);
    } else {
        lemma_packs_listed_in_two_parts(a, b.drop_last());
        assert((a + b).drop_last() =~= a + b.drop_last());
        assert((a + b).last() == b.last());
    }
}

/// The block types of packs listed in two parts are those of the first part followed by
/// those of the second: what a pack lists does not depend on the packs before it.
pub proof fn lemma_block_types_in_two_parts(a: Seq<DataPack>, b: Seq<DataPack>)
    ensures
        all_block_types(a + b) == all_block_types(a) + all_block_types(b),
    decreases b.len(),
{
    if b.len() == 0 {
        assert(a + b =~= a);
        assert(all_block_types(a) + all_block_types(b) =~= all_block_types(a));
    } else {
        lemma_block_types_in_two_parts(a, b.drop_last());
        assert((a + b).drop_last() =~= a + b.drop_last());
        assert((a + b).last() == b.last());
        let t = entry_values(block_type_entries(b.last().block_definitions)).map_values(|d| block_type_of(d));
        assert(all_block_types(a) + all_block_types(b.drop_last()) + t =~= all_block_types(a) + (all_block_types(b.drop_last()) + t));
    }
}

/// The materials of packs listed in two parts are those of the first part followed by
/// those of the second.
pub proof fn lemma_materials_in_two_parts(a: Seq<DataPack>, b: Seq<DataPack>)
    ensures
        all_materials(a + b) == all_materials(a) + all_materials(b),
    decreases b.len(),
{
    if b.len() == 0 {
        assert(a + b =~= a);
        assert(all_materials(a) + all_materials(b) =~= all_materials(a));
    } else {
        lemma_materials_in_two_parts(a, b.drop_last());
        assert((a + b).drop_last() =~= a + b.drop_last());
        assert((a + b).last() == b.last());
        let t = entry_values(material_entries(b.last().material_definitions));
        assert(all_materials(a) + all_materials(b.drop_last()) + t =~= all_materials(a) + (all_materials(b.drop_last()) + t));
    }
}

/// The textures of packs listed in two parts are those of the first part followed by
/// those of the second.
pub proof fn lemma_textures_in_two_parts(a: Seq<DataPack>, b: Seq<DataPack>)
    ensures
        all_textures(a + b) == all_textures(a) + all_textures(b),
    decreases b.len(),
{
    if b.len() == 0 {
        assert(a + b =~= a);
        assert(all_textures(a) + all_textures(b) =~= all_textures(a));
    } else {
        lemma_textures_in_two_parts(a, b.drop_last());
        assert((a + b).drop_last() =~= a + b.drop_last());
        assert((a + b).last() == b.last());
        let t = entry_values(texture_entries(b.last().texture_definitions));
        assert(all_textures(a) + all_textures(b.drop_last()) + t =~= all_textures(a) + (all_textures(b.drop_last()) + t));
    }
}

/// A single pack lists one block type per block definition, in order, each with the
/// definition's identifier, name and appearance.
pub proof fn lemma_block_types_of_one_pack(p: DataPack)
    ensures
        all_block_types(seq![p]).len() == block_type_entries(p.block_definitions).len(),
        forall|k: int| 0 <= k < block_type_entries(p.block_definitions).len() ==> {
            &&& (#[trigger] all_block_types(seq![p])[k]).id == block_type_entries(p.block_definitions)[k].1.id
            &&& all_block_types(seq![p])[k].display_name == block_type_entries(p.block_definitions)[k].1.display_name
            &&& all_block_types(seq![p])[k].appearance == block_type_entries(p.block_definitions)[k].1.appearance
        },
{
    assert(seq![p].drop_last() =~= Seq::<DataPack>::empty());
    assert(seq![p].last() == p);
    let t = entry_values(block_type_entries(p.block_definitions)).map_values(|d| block_type_of(d));
    assert(all_block_types(seq![p]) == all_block_types(seq![p].drop_last()) + t);
    assert(all_block_types(Seq::<DataPack>::empty()) == Seq::<BlockType>::empty());
    assert(Seq::<BlockType>::empty() + t =~= t);
}

impl Universe {
    /// The data packs of this universe, in order.
    pub open spec fn packs(&self) -> Seq<DataPack> {
        data_pack_entries(self.data_packs)
    }

    /// The universe named `id` whose packs are `packs` in order, a pack whose identifier
    /// came before being left out.
    pub fn from_data_packs(id: String, packs: Vec<DataPack>) -> (r: Universe)
        ensures
            r.id == id,
            r.packs() == packs_after_inserts(Seq::empty(), packs@),
            (forall|i: int, j: int| 0 <= i < j < packs@.len() ==> (#[trigger] packs@[i]).id@ != (#[trigger] packs@[j]).id@)
                ==> r.packs() == packs@,
    {
        proof {
            if forall|i: int, j: int| 0 <= i < j < packs@.len() ==> (#[trigger] packs@[i]).id@ != (#[trigger] packs@[j]).id@ {
                lemma_distinct_packs_kept_in_order(packs@);
            }
        }
        let ghost all = packs@;
        let total = packs.len();
        let mut packs = packs;
        let mut data_packs = data_pack_set_new();
        let mut k: usize = 0;
        while packs.len() > 0
            invariant
                k + packs@.len() == all.len(),
                all.len() == total,
                packs@ == all.skip(k as int),
                data_pack_entries(data_packs) == packs_after_inserts(Seq::empty(), all.take(k as int)),
            decreases packs@.len(),
        {
            let p = packs.remove(0);
            proof {
                lemma_take_step(all, k as int);
                assert(all[k as int] == p);
            }
            data_pack_set_insert(&mut data_packs, p);
            k = k + 1;
            assert(packs@ =~= all.skip(k as int));
        }
        assert(all.take(k as int) =~= all);
        Universe { id, data_packs }
    }

    /// The block type of every block definition of every pack, pack by pack.
    pub fn block_types(&self) -> (r: Vec<BlockType>)
        ensures
            r@ == all_block_types(self.packs()),
    {
        let ghost packs = self.packs();
        let mut out: Vec<BlockType> = Vec::new();
        let n = data_pack_set_len(&self.data_packs);
        let mut i: usize = 0;
        while i < n
            invariant
                n == packs.len(),
                packs == self.packs(),
                i <= n,
                out@ == all_block_types(packs.take(i as int)),
            decreases n - i,
        {
            let pack = data_pack_set_get_index(&self.data_packs, i).unwrap();
            let ghost entries = block_type_entries(pack.block_definitions);
            let ghost types = entry_values(entries).map_values(|d| block_type_of(d));
            let m = block_type_map_len(&pack.block_definitions);
            let mut j: usize = 0;
            while j < m
                invariant
                    m == entries.len(),
                    entries == block_type_entries(pack.block_definitions),
                    types == entry_values(entries).map_values(|d| block_type_of(d)),
                    j <= m,
                    out@ == all_block_types(packs.take(i as int)) + types.take(j as int),
                decreases m - j,
            {
                let (_, definition) = block_type_map_get_index(&pack.block_definitions, j).unwrap();
                out.push(BlockType::from_definition(definition));
                assert(types.take(j + 1) =~= types.take(j as int).push(block_type_of(entries[j as int].1)));
                j = j + 1;
            }
            proof {
                lemma_take_step(packs, i as int);
                assert(types.take(m as int) =~= types);
            }
            i = i + 1;
        }
        assert(packs.take(n as int) =~= packs);
        out
    }

    /// The material stored under `id` in the last pack that has one.
    pub fn material(&self, id: String) -> (r: Option<&MaterialDefinition>)
        ensures
            match material_lookup(self.packs(), id@) {
                Some(m) => r matches Some(x) && *x == m,
                None => r is None,
            },
    {
        let ghost packs = self.packs();
        let mut i = data_pack_set_len(&self.data_packs);
        assert(packs.take(i as int) =~= packs);
        while i > 0
            invariant
                i <= packs.len(),
                packs == self.packs(),
                material_lookup(packs.take(i as int), id@) == material_lookup(packs, id@),
            decreases i,
        {
            let pack = data_pack_set_get_index(&self.data_packs, i - 1).unwrap();
            proof { lemma_take_step(packs, i - 1); }
            if let Some(material) = material_map_get(&pack.material_definitions, &id) {
                return Some(material);
            }
            i = i - 1;
        }
        None
    }

    /// Every material of every pack, pack by pack, cloned.
    pub fn materials_cloned(&self) -> (r: Vec<MaterialDefinition>)
        ensures
            r@ == all_materials(self.packs()),
    {
        let ghost packs = self.packs();
        let mut out: Vec<MaterialDefinition> = Vec::new();
        let n = data_pack_set_len(&self.data_packs);
        let mut i: usize = 0;
        while i < n
            invariant
                n == packs.len(),
                packs == self.packs(),
                i <= n,
                out@ == all_materials(packs.take(i as int)),
            decreases n - i,
        {
            let pack = data_pack_set_get_index(&self.data_packs, i).unwrap();
            let ghost entries = material_entries(pack.material_definitions);
            let m = material_map_len(&pack.material_definitions);
            let mut j: usize = 0;
            while j < m
                invariant
                    m == entries.len(),
                    entries == material_entries(pack.material_definitions),
                    j <= m,
                    out@ == all_materials(packs.take(i as int)) + entry_values(entries).take(j as int),
                decreases m - j,
            {
                let (_, material) = material_map_get_index(&pack.material_definitions, j).unwrap();
                out.push(material.clone());
                proof { lemma_values_take_step(entries, j as int); }
                j = j + 1;
            }
            proof {
                lemma_take_step(packs, i as int);
                assert(entry_values(entries).take(m as int) =~= entry_values(entries));
            }
            i = i + 1;
        }
        assert(packs.take(n as int) =~= packs);
        out
    }

    /// The texture stored under `id` in the last pack that has one.
    pub fn texture(&self, id: String) -> (r: Option<&TextureDefinition>)
        ensures
            match texture_lookup(self.packs(), id@) {
                Some(t) => r matches Some(x) && *x == t,
                None => r is None,
            },
    {
        let ghost packs = self.packs();
        let mut i = data_pack_set_len(&self.data_packs);
        assert(packs.take(i as int) =~= packs);
        while i > 0
            invariant
                i <= packs.len(),
                packs == self.packs(),
                texture_lookup(packs.take(i as int), id@) == texture_lookup(packs, id@),
            decreases i,
        {
            let pack = data_pack_set_get_index(&self.data_packs, i - 1).unwrap();
            proof { lemma_take_step(packs, i - 1); }
            if let Some(texture) = texture_map_get(&pack.texture_definitions, &id) {
                return Some(texture);
            }
            i = i - 1;
        }
        None
    }

    /// Every texture of every pack, pack by pack, cloned.
    pub fn textures_cloned(&self) -> (r: Vec<TextureDefinition>)
        ensures
            r@ == all_textures(self.packs()),
    {
        let ghost packs = self.packs();
        let mut out: Vec<TextureDefinition> = Vec::new();
        let n = data_pack_set_len(&self.data_packs);
        let mut i: usize = 0;
        while i < n
            invariant
                n == packs.len(),
                packs == self.packs(),
                i <= n,
                out@ == all_textures(packs.take(i as int)),
            decreases n - i,
        {
            let pack = data_pack_set_get_index(&self.data_packs, i).unwrap();
            let ghost entries = texture_entries(pack.texture_definitions);
            let m = texture_map_len(&pack.texture_definitions);
            let mut j: usize = 0;
            while j < m
                invariant
                    m == entries.len(),
                    entries == texture_entries(pack.texture_definitions),
                    j <= m,
                    out@ == all_textures(packs.take(i as int)) + entry_values(entries).take(j as int),
                decreases m - j,
            {
                let (_, texture) = texture_map_get_index(&pack.texture_definitions, j).unwrap();
                out.push(texture.clone());
                proof { lemma_values_take_step(entries, j as int); }
                j = j + 1;
            }
            proof {
                lemma_take_step(packs, i as int);
                assert(entry_values(entries).take(m as int) =~= entry_values(entries));
            }
            i = i + 1;
        }
        assert(packs.take(n as int) =~= packs);
        out
    }
}

} // verus!
