//! Segment selectors: 16-bit indices into the Global Descriptor Table
//! together with a requested privilege ring.
//!
//! Reading and writing the six hardware segment registers is a
//! privileged operation that lives outside this crate; the selector
//! values those registers hold are built and decoded here.

use vstd::prelude::*;

use crate::privilege::KernelRings;

verus! {

/// A segment selector: bits 3..16 hold a Global Descriptor Table index,
/// bits 0..2 the requested privilege ring (bit 2, the table-indicator
/// bit, stays clear: only the global table is used).
#[derive(Debug, Clone, Copy, PartialEq, Eq, PartialOrd, Ord, Hash, Structural)]
pub struct SegmentSelector(pub u16);

/// The privilege-ring bits of a selector word.
pub open spec fn selector_ring_bits(value: u16) -> u16 {
    value & 3
}

/// The table-index bits of a selector word.
pub open spec fn selector_index_bits(value: u16) -> u16 {
    value >> 3
}

impl SegmentSelector {
    /// Pack a descriptor-table index (0..8192) and a requested ring
    /// into a selector word.
    pub fn new(index: u16, ring: KernelRings) -> (r: Self)
        requires
            index < 0x2000,
        ensures
            r.0 == (index << 3) | ring.spec_value(),
            selector_index_bits(r.0) == index,
            selector_ring_bits(r.0) == ring.spec_value(),
    {
        let rv: u16 = ring.value();
        proof {
            assert(index < 0x2000 && rv <= 3 ==> ((index << 3) | rv) >> 3 == index
                && ((index << 3) | rv) & 3 == rv) by (bit_vector);
        }
        SegmentSelector((index << 3) | rv)
    }

    /// The Global Descriptor Table index this selector names.
    pub fn index(self) -> (r: u16)
        ensures
            r == selector_index_bits(self.0),
            r < 0x2000,
    {
        let value: u16 = self.0;
        proof {
            assert(value >> 3 < 0x2000) by (bit_vector);
        }
        value >> 3
    }

    /// The privilege ring this selector requests.
    pub fn ring(self) -> (r: KernelRings)
        ensures
            r.spec_value() == selector_ring_bits(self.0),
    {
        let value: u16 = self.0;
        proof {
            assert(value & 3 <= 3) by (bit_vector);
        }
        KernelRings::new(value & 3)
    }
}

/// Packing an index and a ring into a selector and decoding the word
/// again yields back exactly the index and the ring that went in.
pub proof fn lemma_selector_round_trip(index: u16, ring_value: u16)
    requires
        index < 0x2000,
        ring_value <= 3,
    ensures
        selector_index_bits((index << 3) | ring_value) == index,
        selector_ring_bits((index << 3) | ring_value) == ring_value,
{
    assert(index < 0x2000 && ring_value <= 3 ==> ((index << 3) | ring_value) >> 3 == index && ((
    index << 3) | ring_value) & 3 == ring_value) by (bit_vector);
}

} // verus!
