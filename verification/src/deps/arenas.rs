use vstd::prelude::*;
use crate::world::block::BlockGroup;

verus! {

/// `generational_arena::Arena`, whose live values are named per instantiation below.
#[verifier::external_type_specification]
#[verifier::external_body]
#[verifier::reject_recursive_types(T)]
pub struct ExArena<T>(generational_arena::Arena<T>);

/// The live block groups of an arena, by the raw parts (slot, generation) of their index.
pub uninterp spec fn block_group_slots(a: generational_arena::Arena<BlockGroup>) -> Map<(usize, u64), BlockGroup>;

/// No live block groups at all.
pub open spec fn no_block_groups() -> Map<(usize, u64), BlockGroup> {
    Map::empty()
}

/// Calls `Arena::new`: an arena with no live values.
#[verifier::external_body]
pub(crate) fn block_group_arena_new() -> (r: generational_arena::Arena<BlockGroup>)
    ensures
        block_group_slots(r) == no_block_groups(),
{
    generational_arena::Arena::new()
}

/// Calls `Arena::insert` and `Index::into_raw_parts`: the value is stored under an index
/// that held no live value, and the raw parts of that index are returned.
#[verifier::external_body]
pub(crate) fn block_group_arena_insert(a: &mut generational_arena::Arena<BlockGroup>, value: BlockGroup) -> (r: (usize, u64))
    ensures
        !block_group_slots(*old(a)).contains_key(r),
        block_group_slots(*final(a)) == block_group_slots(*old(a)).insert(r, value),
{
    a.insert(value).into_raw_parts()
}

} // verus!
