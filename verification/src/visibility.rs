//! The set of entities that a view sees, kept in a `fixedbitset::FixedBitSet`.
use vstd::prelude::*;
use fixedbitset::FixedBitSet;

verus! {

/// Declares the bit set type of the `fixedbitset` crate.
#[verifier::external_type_specification]
#[verifier::external_body]
pub struct ExFixedBitSet(FixedBitSet);

/// The bits set in a bit set.
pub uninterp spec fn bitset_ones(set: FixedBitSet) -> Set<nat>;

/// The entity indices listed, as a set.
pub open spec fn index_set(indices: Seq<usize>) -> Set<nat> {
    Set::new(|b: nat| exists|i: int| 0 <= i < indices.len() && indices[i] as nat == b)
}

/// `FixedBitSet::clear`: unsets every bit (the length stays).
#[verifier::external_body]
fn bitset_clear(set: &mut FixedBitSet)
    ensures
        bitset_ones(*final(set)) == Set::<nat>::empty(),
{
    set.clear()
}

/// `FixedBitSet::extend` over the listed bits: each bit is set, the set
/// growing first where the bit lies beyond its length; other bits keep their
/// value. Growing to `bit + 1` is why no bit may be `usize::MAX`.
#[verifier::external_body]
fn bitset_extend(set: &mut FixedBitSet, bits: &Vec<usize>)
    requires
        forall|i: int| 0 <= i < bits.len() ==> #[trigger] bits@[i] < usize::MAX,
    ensures
        bitset_ones(*final(set)) == bitset_ones(*old(set)).union(index_set(bits@)),
{
    set.extend(bits.iter().copied())
}

/// Records the entities a view sees: afterwards the set holds exactly the
/// listed entity indices.
pub fn record_visible_entities(view_entities: &mut FixedBitSet, indices: &Vec<usize>)
    requires
        forall|i: int| 0 <= i < indices.len() ==> #[trigger] indices@[i] < usize::MAX,
    ensures
        bitset_ones(*final(view_entities)) == index_set(indices@),
{
    bitset_clear(view_entities);
    bitset_extend(view_entities, indices);
    assert(Set::<nat>::empty().union(index_set(indices@)) =~= index_set(indices@));
}

} // verus!
