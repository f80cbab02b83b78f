use vstd::prelude::*;
use crate::client::view::LayoutView;
use crate::world::block::BlockType;

verus! {

/// `dashmap::DashMap`, whose entries are named per instantiation below.
#[verifier::external_type_specification]
#[verifier::external_body]
#[verifier::reject_recursive_types(K)]
#[verifier::reject_recursive_types(V)]
#[verifier::reject_recursive_types(S)]
pub struct ExDashMap<K, V, S>(dashmap::DashMap<K, V, S>);

/// The block types a map holds, by identifier.
pub uninterp spec fn block_type_list_entries(m: dashmap::DashMap<String, BlockType>) -> Map<Seq<char>, BlockType>;

/// The layout views a map holds, by identifier.
pub uninterp spec fn layout_view_entries(m: dashmap::DashMap<String, LayoutView>) -> Map<Seq<char>, LayoutView>;

/// No block types at all.
pub open spec fn no_block_types() -> Map<Seq<char>, BlockType> {
    Map::empty()
}

/// No layout views at all.
pub open spec fn no_layout_views() -> Map<Seq<char>, LayoutView> {
    Map::empty()
}

/// Calls `DashMap::new`: a map with no entries.
#[verifier::external_body]
pub(crate) fn block_type_list_new() -> (r: dashmap::DashMap<String, BlockType>)
    ensures
        block_type_list_entries(r) == no_block_types(),
{
    dashmap::DashMap::new()
}

/// Calls `DashMap::new`: a map with no entries.
#[verifier::external_body]
pub(crate) fn layout_view_map_new() -> (r: dashmap::DashMap<String, LayoutView>)
    ensures
        layout_view_entries(r) == no_layout_views(),
{
    dashmap::DashMap::new()
}

} // verus!
