//! Stable identifiers of manipulable objects.

use vstd::prelude::*;

verus! {

/// An opaque, versioned reference to an object that the scene owns.
///
/// A handle does not keep its object alive. The slot `index` may be reused
/// after the object is destroyed; `generation` tells the new occupant from
/// the old one, so a stale handle never resolves to a different object.
#[derive(Clone, Copy, Debug, PartialEq, Eq, Hash, Structural)]
pub struct ObjectHandle {
    pub index: u32,
    pub generation: u32,
}

impl ObjectHandle {
    /// The handle packed into one word: generation in the high half,
    /// index in the low half.
    pub open spec fn bits(self) -> int {
        self.generation as int * 0x1_0000_0000 + self.index as int
    }

    /// The handle of the occupant number `generation` of slot `index`.
    pub fn new(index: u32, generation: u32) -> (h: ObjectHandle)
        ensures
            h.index == index,
            h.generation == generation,
    {
        ObjectHandle { index, generation }
    }

    /// Packs the handle into one word.
    pub fn to_bits(&self) -> (b: u64)
        ensures
            b as int == self.bits(),
    {
        let hi: u64 = self.generation as u64;
        let lo: u64 = self.index as u64;
        assert((hi << 32) | lo == hi * 0x1_0000_0000 + lo) by (bit_vector)
            requires
                hi <= 0xffff_ffff,
                lo <= 0xffff_ffff,
        ;
        (hi << 32) | lo
    }

    /// Unpacks a word produced by [`ObjectHandle::to_bits`]. Every word is
    /// the packing of exactly one handle.
    pub fn from_bits(b: u64) -> (h: ObjectHandle)
        ensures
            h.bits() == b as int,
    {
        let hi: u64 = b >> 32;
        let lo: u64 = b & 0xffff_ffff;
        assert(hi <= 0xffff_ffff && lo <= 0xffff_ffff && hi * 0x1_0000_0000 + lo == b)
            by (bit_vector)
            requires
                hi == b >> 32,
                lo == b & 0xffff_ffff,
        ;
        ObjectHandle { index: lo as u32, generation: hi as u32 }
    }
}

/// Packing is injective: two handles with the same word are the same handle.
pub proof fn lemma_bits_injective(a: ObjectHandle, b: ObjectHandle)
    requires
        a.bits() == b.bits(),
    ensures
        a == b,
{
}

} // verus!
