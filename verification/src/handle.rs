//! Opaque handles and their pointer-sized form.
use vstd::prelude::*;

verus! {

/// Names one map of a registry: a slot, and the generation of the slot's tenant.
///
/// A handle says nothing on its own. Any bit pattern can be turned into one, and
/// only the registry that issued a handle can tell whether it still names a map.
#[derive(Clone, Copy, Debug, PartialEq, Eq, Structural)]
pub struct Handle {
    /// The number of the slot.
    pub slot: u32,
    /// Which tenant of the slot is meant, counted from one.
    pub generation: u32,
}

impl Handle {
    /// The 64-bit form of the handle: the generation in the high half, the slot
    /// in the low half.
    pub open spec fn bits(self) -> u64 {
        ((self.generation as u64) << 32) | (self.slot as u64)
    }

    /// The handle that a 64-bit pattern stands for.
    pub open spec fn of_bits(bits: u64) -> Handle {
        Handle { slot: (bits & 0xffff_ffff) as u32, generation: (bits >> 32) as u32 }
    }

    /// The handle whose bits are all zero, which is what a null pointer turns into.
    pub open spec fn is_null(self) -> bool {
        self.bits() == 0
    }

    /// Packs the handle into 64 bits.
    pub fn to_bits(self) -> (bits: u64)
        ensures
            bits == self.bits(),
    {
        ((self.generation as u64) << 32) | (self.slot as u64)
    }

    /// Unpacks a handle from 64 bits. Every pattern is accepted.
    pub fn from_bits(bits: u64) -> (handle: Handle)
        ensures
            handle == Handle::of_bits(bits),
    {
        Handle { slot: (bits & 0xffff_ffff) as u32, generation: (bits >> 32) as u32 }
    }

    /// Packing a handle and unpacking the result gives the handle back.
    pub proof fn lemma_bits_round_trip(self)
        ensures
            Handle::of_bits(self.bits()) == self,
    {
        let slot = self.slot;
        let generation = self.generation;
        assert((((generation as u64) << 32) | (slot as u64)) & 0xffff_ffff == slot as u64)
            by (bit_vector);
        assert((((generation as u64) << 32) | (slot as u64)) >> 32 == generation as u64)
            by (bit_vector);
    }

    /// Unpacking a pattern and packing the result gives the pattern back.
    pub proof fn lemma_of_bits_round_trip(bits: u64)
        ensures
            Handle::of_bits(bits).bits() == bits,
    {
        assert(((((bits >> 32) as u32) as u64) << 32) | (((bits & 0xffff_ffff) as u32) as u64)
            == bits) by (bit_vector);
    }

    /// Two handles with the same bits are the same handle.
    pub proof fn lemma_bits_distinct(self, other: Handle)
        ensures
            self.bits() == other.bits() <==> self == other,
    {
        self.lemma_bits_round_trip();
        other.lemma_bits_round_trip();
    }

    /// The null handle is the one of generation zero in slot zero. A handle of
    /// any other generation is not null.
    pub proof fn lemma_null(self)
        ensures
            self.is_null() <==> self.slot == 0 && self.generation == 0,
    {
        let slot = self.slot;
        let generation = self.generation;
        assert((((generation as u64) << 32) | (slot as u64)) == 0 <==> (generation == 0 && slot
            == 0)) by (bit_vector);
    }
}

} // verus!
