//! Collision groups of the physics world.
use vstd::prelude::*;

verus! {

/// The group bits of ships, objects and cannon balls.
pub fn get_any_coll_group() -> (g: u32)
    ensures
        g == 7,
{
    assert((1u32 | 2u32 | 4u32) == 7u32) by (bit_vector);
    1 | 2 | 4
}

/// The group of decals, which ships pass over.
pub fn get_decal_coll_group() -> (g: u32)
    ensures
        g == 6,
{
    6
}

/// The group of what collides with nothing.
pub fn get_empty_coll_group() -> (g: u32)
    ensures
        g == 0,
{
    0
}

} // verus!
