//! # Universes
//!
//! Since the engine is data-driven, a universe represents all the "things"
//! that you can use to create your worlds, stacked from data packs.
use vstd::prelude::*;
use crate::deps::paths::clone_path;

pub mod block_type;
pub mod data_pack;
pub mod example;
pub mod material;
pub mod texture;
pub mod universe;

verus! {

/// Something that is known by a textual identifier.
pub trait Id {
    /// The identifier, as the contracts see it.
    spec fn id_view(&self) -> Seq<char>;

    /// The identifier, as an owned string.
    fn id(&self) -> (r: String)
        ensures
            r@ == self.id_view(),
    ;
}

/// File on disk that defines a folder as containing a data pack.
#[derive(Debug)]
pub struct DataPackDefinition {
    pub id: String,
}

impl Id for DataPackDefinition {
    open spec fn id_view(&self) -> Seq<char> {
        self.id@
    }

    fn id(&self) -> (r: String) {
        self.id.clone()
    }
}

/// File on disk that defines a folder as containing a world.
#[derive(Debug)]
pub struct WorldDefinition {
    pub id: String,
    pub display_name: String,
}

impl Id for WorldDefinition {
    open spec fn id_view(&self) -> Seq<char> {
        self.id@
    }

    fn id(&self) -> (r: String) {
        self.id.clone()
    }
}

/// Where the data pack of a universe is found.
#[derive(Debug)]
pub enum DataPackRef {
    /// The pack is stored locally, in a folder.
    Local(std::path::PathBuf),
    /// The pack is sourced remotely.
    Git(String),
}

/// File on disk that defines a folder as containing a universe.
#[derive(Debug)]
pub struct UniverseDefinition {
    pub id: String,
    pub display_name: String,
    pub data_packs: Vec<DataPackRef>,
}

impl Id for UniverseDefinition {
    open spec fn id_view(&self) -> Seq<char> {
        self.id@
    }

    fn id(&self) -> (r: String) {
        self.id.clone()
    }
}

/// The folders of the locally stored packs among `refs`, in order.
pub open spec fn local_pack_dirs(refs: Seq<DataPackRef>) -> Seq<std::path::PathBuf>
    decreases refs.len(),
{
    if refs.len() == 0 {
        Seq::empty()
    } else {
        let before = local_pack_dirs(refs.drop_last());
        match refs.last() {
            DataPackRef::Local(dir) => before.push(dir),
            DataPackRef::Git(_) => before,
        }
    }
}

/// Whether a pack is stored locally.
pub open spec fn is_local(r: DataPackRef) -> bool {
    r is Local
}

/// The folder of a locally stored pack.
pub open spec fn local_dir(r: DataPackRef) -> std::path::PathBuf {
    r->Local_0
}

/// The folders are exactly those of the locally stored packs, one each, in the order
/// listed, whatever refs stand between them.
pub proof fn lemma_local_pack_dirs_are_the_local_refs(refs: Seq<DataPackRef>)
    ensures
        local_pack_dirs(refs) == refs.filter(|r: DataPackRef| is_local(r)).map_values(|r: DataPackRef| local_dir(r)),
        local_pack_dirs(refs).len() == refs.filter(|r: DataPackRef| is_local(r)).len(),
    decreases refs.len(),
{
    let f = |r: DataPackRef| is_local(r);
    let g = |r: DataPackRef| local_dir(r);
    if refs.len() == 0 {
        assert(refs.filter(f) =~= Seq::<DataPackRef>::empty()) by {
            reveal(Seq::filter);
        }
        assert(refs.filter(f).map_values(g) =~= Seq::<std::path::PathBuf>::empty());
    } else {
        let rest = refs.drop_last();
        let last = refs.last();
        lemma_local_pack_dirs_are_the_local_refs(rest);
        assert(rest.push(last) =~= refs);
        rest.lemma_filter_push(last, f);
        if f(last) {
            assert(rest.filter(f).push(last).map_values(g) =~= rest.filter(f).map_values(g).push(g(last)));
        }
    }
}

impl UniverseDefinition {
    /// The folders, relative to the universe's own, of the packs it stores locally, in
    /// the order it lists them. Remotely sourced packs are not loaded.
    pub fn local_data_pack_dirs(&self) -> (r: Vec<std::path::PathBuf>)
        ensures
            r@ == local_pack_dirs(self.data_packs@),
            r@ == self.data_packs@.filter(|d: DataPackRef| is_local(d)).map_values(|d: DataPackRef| local_dir(d)),
    {
        proof { lemma_local_pack_dirs_are_the_local_refs(self.data_packs@); }
        let mut dirs: Vec<std::path::PathBuf> = Vec::new();
        let mut i: usize = 0;
        while i < self.data_packs.len()
            invariant
                i <= self.data_packs@.len(),
                dirs@ == local_pack_dirs(self.data_packs@.take(i as int)),
            decreases self.data_packs@.len() - i,
        {
            assert(self.data_packs@.take(i + 1).drop_last() =~= self.data_packs@.take(i as int));
            match &self.data_packs[i] {
                DataPackRef::Local(dir) => dirs.push(clone_path(dir)),
                DataPackRef::Git(_) => {},
            }
            i = i + 1;
        }
        assert(self.data_packs@.take(self.data_packs@.len() as int) =~= self.data_packs@);
        dirs
    }
}

} // verus!
