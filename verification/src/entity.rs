//! The kinds of entity in the world and the numbers that tag their
//! colliders.
use vstd::prelude::*;

verus! {

/// What kind of thing an entity is.
#[derive(Debug, PartialEq, Eq, Structural)]
pub enum EntityType {
    Ship,
    Object,
    CannonBall,
}

/// What kind of obstacle an object is; reefs only endanger ships with a
/// deep keel.
#[derive(Debug, Clone, Copy, PartialEq, Eq, Structural)]
pub enum ObjectType {
    Island,
    Reef,
    Shipwreck,
}

/// The number each entity type is tagged with.
pub open spec fn entity_type_num(t: EntityType) -> u128 {
    match t {
        EntityType::Ship => 0,
        EntityType::Object => 1,
        EntityType::CannonBall => 2,
    }
}

/// The entity type a tag in use stands for.
pub open spec fn entity_type_of_num(n: u128) -> EntityType
    recommends
        n < 3,
{
    if n == 0 {
        EntityType::Ship
    } else if n == 1 {
        EntityType::Object
    } else {
        EntityType::CannonBall
    }
}

impl EntityType {
    pub fn to_num(&self) -> (n: u128)
        ensures
            n == entity_type_num(*self),
    {
        match self {
            EntityType::Ship => 0,
            EntityType::Object => 1,
            EntityType::CannonBall => 2,
        }
    }

    /// The entity type a tag stands for; only the three tags in use are
    /// accepted.
    pub fn to_entity_type(n: u128) -> (t: EntityType)
        requires
            n < 3,
        ensures
            t == entity_type_of_num(n),
            entity_type_num(t) == n,
    {
        if n == 0 {
            EntityType::Ship
        } else if n == 1 {
            EntityType::Object
        } else {
            EntityType::CannonBall
        }
    }
}

/// Tagging an entity type and reading the tag back gives the same type;
/// reading a tag in use and tagging the type gives the same tag; and
/// distinct types get distinct tags.
pub proof fn lemma_entity_type_num_roundtrip(t: EntityType, u: EntityType, n: u128)
    ensures
        entity_type_num(t) < 3,
        entity_type_of_num(entity_type_num(t)) == t,
        n < 3 ==> entity_type_num(entity_type_of_num(n)) == n,
        entity_type_num(t) == entity_type_num(u) ==> t == u,
{
}

} // verus!
