use vstd::prelude::*;

verus! {

/// An identifier of an entity of the world.
#[derive(Clone, Copy, Debug, PartialEq, Eq, Structural, Hash)]
pub struct Entity(pub u64);

impl Entity {
    /// The identifier that stands for an entity that could not be mapped.
    pub open spec fn placeholder_spec() -> Entity {
        Entity(u64::MAX)
    }

    pub fn placeholder() -> (r: Entity)
        ensures
            r == Entity::placeholder_spec(),
    {
        Entity(u64::MAX)
    }
}

/// Whether `e` occurs in `set`.
pub fn contains_entity(set: &Vec<Entity>, e: Entity) -> (r: bool)
    ensures
        r == set@.contains(e),
{
    let mut i: usize = 0;
    while i < set.len()
        invariant
            0 <= i <= set@.len(),
            forall|k: int| 0 <= k < i ==> set@[k] != e,
        decreases set@.len() - i,
    {
        if set[i] == e {
            return true;
        }
        i = i + 1;
    }
    false
}

} // verus!
