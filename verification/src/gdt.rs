//! The Global Descriptor Table and its segment descriptors.
//!
//! The table is built once at startup and then handed to the processor
//! by a privileged load instruction that lives outside this crate; from
//! that point on it must never be mutated.

use vstd::prelude::*;

use crate::bitfield::{get_bits_u64, set_bits_u64};
use crate::privilege::KernelRings;
use crate::segment::{selector_index_bits, selector_ring_bits, SegmentSelector};
use crate::tss::TSS_SIZE_BYTES;

verus! {

/// Flag bit: the segment may be written (data segments).
pub const DESCRIPTOR_WRITABLE: u64 = 1u64 << 41;

/// Flag bit: a lower-privileged caller may execute the segment.
pub const DESCRIPTOR_CONFORMING: u64 = 1u64 << 42;

/// Flag bit: the segment holds code.
pub const DESCRIPTOR_EXECUTABLE: u64 = 1u64 << 43;

/// Flag bit: the descriptor describes a code or data segment rather
/// than a system segment.
pub const DESCRIPTOR_USER_SEGMENT: u64 = 1u64 << 44;

/// Flag bit: the descriptor is valid.
pub const DESCRIPTOR_PRESENT: u64 = 1u64 << 47;

/// Flag bit: the segment holds 64-bit code.
pub const DESCRIPTOR_LONG_MODE: u64 = 1u64 << 53;

/// A Global Descriptor Table entry. Code and data segments fit one
/// 64-bit word; system segments such as the one naming the Task State
/// Segment carry a base address and limit and take two consecutive
/// words.
pub enum Descriptor {
    UserSegment(u64),
    SystemSegment(u64, u64),
}

/// The low word of the system descriptor for a Task State Segment at
/// `base`: limit in bits 0..16 (inclusive-bound convention), base bits
/// 0..24 in bits 16..40, type "available 64-bit TSS" in bits 40..44,
/// present in bit 47, base bits 24..32 in bits 56..64.
pub open spec fn tss_descriptor_low(base: u64) -> u64 {
    ((TSS_SIZE_BYTES - 1) as u64) | ((base & 0xFF_FFFF) << 16) | (0x9u64 << 40) | (1u64 << 47) | ((
    (base >> 24) & 0xFF) << 56)
}

/// The high word of the system descriptor for a Task State Segment at
/// `base`: base bits 32..64 in bits 0..32, the rest zero.
pub open spec fn tss_descriptor_high(base: u64) -> u64 {
    base >> 32
}

impl Descriptor {
    /// The number of table words the descriptor occupies.
    pub open spec fn word_count(self) -> int {
        match self {
            Descriptor::UserSegment(_) => 1,
            Descriptor::SystemSegment(_, _) => 2,
        }
    }

    /// The table words the descriptor occupies, in table order.
    pub open spec fn words(self) -> Seq<u64> {
        match self {
            Descriptor::UserSegment(value) => seq![value],
            Descriptor::SystemSegment(low, high) => seq![low, high],
        }
    }

    /// The descriptor for the kernel's code segment: present 64-bit
    /// executable code at ring 0.
    pub fn kernel_code_segment() -> (r: Descriptor)
        ensures
            r == Descriptor::UserSegment(
                DESCRIPTOR_USER_SEGMENT | DESCRIPTOR_PRESENT | DESCRIPTOR_EXECUTABLE
                    | DESCRIPTOR_LONG_MODE,
            ),
    {
        let flags = DESCRIPTOR_USER_SEGMENT | DESCRIPTOR_PRESENT | DESCRIPTOR_EXECUTABLE
            | DESCRIPTOR_LONG_MODE;
        Descriptor::UserSegment(flags)
    }

    /// The descriptor for the kernel's data segment: present writable
    /// data.
    pub fn kernel_data_segment() -> (r: Descriptor)
        ensures
            r == Descriptor::UserSegment(
                DESCRIPTOR_USER_SEGMENT | DESCRIPTOR_PRESENT | DESCRIPTOR_WRITABLE,
            ),
    {
        let flags = DESCRIPTOR_USER_SEGMENT | DESCRIPTOR_PRESENT | DESCRIPTOR_WRITABLE;
        Descriptor::UserSegment(flags)
    }

    /// The two-word system descriptor naming the Task State Segment
    /// that lives at address `tss_base`. The hardware may read the
    /// segment on any later interrupt, so the caller must keep it
    /// resident at that address for the rest of the run.
    pub fn tss_segment(tss_base: u64) -> (r: Descriptor)
        ensures
            r == Descriptor::SystemSegment(
                tss_descriptor_low(tss_base),
                tss_descriptor_high(tss_base),
            ),
    {
        let base_low = get_bits_u64(tss_base, 0, 24);
        let base_mid = get_bits_u64(tss_base, 24, 32);
        let base_high = get_bits_u64(tss_base, 32, 64);

        let low0 = DESCRIPTOR_PRESENT;
        let low1 = set_bits_u64(low0, 16, 40, base_low);
        let low2 = set_bits_u64(low1, 56, 64, base_mid);
        // The limit is the last addressable byte, hence the `- 1`.
        proof {
            assert(((TSS_SIZE_BYTES - 1) as u64) < (1u64 << 16)) by (bit_vector);
        }
        let low3 = set_bits_u64(low2, 0, 16, TSS_SIZE_BYTES - 1);
        proof {
            assert(0x9u64 < (1u64 << 4)) by (bit_vector);
        }
        let low = set_bits_u64(low3, 40, 44, 0x9);

        let high = set_bits_u64(0, 0, 32, base_high);

        proof {
            assert(low == 0x67u64 | ((tss_base & 0xFF_FFFF) << 16) | (0x9u64 << 40) | (1u64 << 47)
                | (((tss_base >> 24) & 0xFF) << 56) && high == tss_base >> 32) by (bit_vector)
                requires
                    base_low == (tss_base >> 0) & crate::bitfield::low_mask_u64(24),
                    base_mid == (tss_base >> 24) & crate::bitfield::low_mask_u64(8),
                    base_high == (tss_base >> 32) & crate::bitfield::low_mask_u64(32),
                    low1 == ((1u64 << 47) & !(crate::bitfield::low_mask_u64(24) << 16)) | (base_low
                        << 16),
                    low2 == (low1 & !(crate::bitfield::low_mask_u64(8) << 56)) | (base_mid << 56),
                    low3 == (low2 & !(crate::bitfield::low_mask_u64(16) << 0)) | (0x67u64 << 0),
                    low == (low3 & !(crate::bitfield::low_mask_u64(4) << 40)) | (0x9u64 << 40),
                    high == (0u64 & !(crate::bitfield::low_mask_u64(32) << 0)) | (base_high << 0),
            ;
            assert(0x67u64 == (TSS_SIZE_BYTES - 1) as u64);
        }

        Descriptor::SystemSegment(low, high)
    }
}

/// Splitting an address into the three base fields of a system
/// descriptor and reading them back out of the packed words reassembles
/// exactly the address that was packed.
pub proof fn lemma_tss_descriptor_base_round_trip(base: u64)
    ensures
        ((tss_descriptor_low(base) >> 16) & 0xFF_FFFF) | (((tss_descriptor_low(base) >> 56) & 0xFF)
            << 24) | (tss_descriptor_high(base) << 32) == base,
        tss_descriptor_low(base) & 0xFFFF == TSS_SIZE_BYTES - 1,
        (tss_descriptor_low(base) >> 40) & 0xF == 0x9,
        (tss_descriptor_low(base) >> 47) & 1 == 1,
{
    let low = tss_descriptor_low(base);
    assert(((((((TSS_SIZE_BYTES - 1) as u64) | ((base & 0xFF_FFFF) << 16) | (0x9u64 << 40) | (1u64
        << 47) | (((base >> 24) & 0xFF) << 56)) >> 16) & 0xFF_FFFF) | (((((TSS_SIZE_BYTES
        - 1) as u64 | ((base & 0xFF_FFFF) << 16) | (0x9u64 << 40) | (1u64 << 47) | (((base >> 24)
        & 0xFF) << 56)) >> 56) & 0xFF) << 24) | ((base >> 32) << 32)) == base) by (bit_vector);
    assert((((TSS_SIZE_BYTES - 1) as u64) | ((base & 0xFF_FFFF) << 16) | (0x9u64 << 40) | (1u64
        << 47) | (((base >> 24) & 0xFF) << 56)) & 0xFFFF == (TSS_SIZE_BYTES - 1) as u64)
        by (bit_vector);
    assert(((((TSS_SIZE_BYTES - 1) as u64) | ((base & 0xFF_FFFF) << 16) | (0x9u64 << 40) | (1u64
        << 47) | (((base >> 24) & 0xFF) << 56)) >> 40) & 0xF == 0x9) by (bit_vector);
    assert(((((TSS_SIZE_BYTES - 1) as u64) | ((base & 0xFF_FFFF) << 16) | (0x9u64 << 40) | (1u64
        << 47) | (((base >> 24) & 0xFF) << 56)) >> 47) & 1 == 1) by (bit_vector);
}

/// The Global Descriptor Table: a fixed-capacity, append-only sequence
/// of descriptor words whose slot 0 is the mandatory null descriptor.
pub struct GlobalDescriptorTable {
    table: [u64; 8],
    len: usize,
}

impl GlobalDescriptorTable {
    /// The occupied prefix of the table, in order.
    pub closed spec fn entries(self) -> Seq<u64> {
        self.table@.take(self.len as int)
    }

    /// The number of occupied table slots.
    pub closed spec fn spec_len(self) -> int {
        self.len as int
    }

    /// The table always holds the null descriptor, never outgrows its
    /// capacity, and keeps every backing word past the occupied prefix
    /// zero: the privileged load presents all eight words to the
    /// processor, so the unoccupied ones must be null descriptors.
    pub closed spec fn wf(self) -> bool {
        &&& 1 <= self.len <= 8
        &&& self.table@[0] == 0
        &&& forall|i: int| self.len <= i < 8 ==> self.table@[i] == 0
    }

    /// The number of occupied slots.
    pub fn len(&self) -> (r: usize)
        ensures
            r == self.spec_len(),
    {
        self.len
    }

    /// The eight table words as the hardware will see them: the
    /// occupied prefix holds the descriptors in insertion order, and
    /// in a well-formed table every word past it is zero.
    pub fn table_words(&self) -> (r: &[u64; 8])
        ensures
            r@.len() == 8,
            r@.take(self.spec_len()) == self.entries(),
            self.wf() ==> forall|i: int| self.spec_len() <= i < 8 ==> r@[i] == 0,
    {
        &self.table
    }

    /// The limit field of the descriptor-table pointer handed to the
    /// privileged load instruction: the offset of the table's last
    /// byte (the bound is inclusive).
    pub fn pointer_limit(&self) -> (r: u16)
        ensures
            r == 8 * 8 - 1,
    {
        63
    }

    /// A table holding only the mandatory null descriptor.
    pub fn new() -> (r: GlobalDescriptorTable)
        ensures
            r.wf(),
            r.spec_len() == 1,
            r.entries() == seq![0u64],
    {
        let r = GlobalDescriptorTable { table: [0u64; 8], len: 1 };
        proof {
            assert(r.entries() =~= seq![0u64]);
        }
        r
    }

    /// Append one word, returning its slot index. Capacity overflow is
    /// a configuration bug and is rejected up front.
    fn push(&mut self, value: u64) -> (index: usize)
        requires
            old(self).wf(),
            old(self).spec_len() < 8,
        ensures
            final(self).wf(),
            final(self).entries() == old(self).entries().push(value),
            final(self).spec_len() == old(self).spec_len() + 1,
            index == old(self).spec_len(),
    {
        let index = self.len;
        self.table[index] = value;
        self.len = index + 1;
        proof {
            assert(self.entries() =~= old(self).entries().push(value));
        }
        index
    }

    /// Append a descriptor and return a ring-0 selector addressing its
    /// first word. User segments take one slot, system segments two;
    /// the table must have room for the whole descriptor.
    pub fn add(&mut self, entry: Descriptor) -> (r: SegmentSelector)
        requires
            old(self).wf(),
            old(self).spec_len() + entry.word_count() <= 8,
        ensures
            final(self).wf(),
            final(self).entries() == old(self).entries() + entry.words(),
            final(self).spec_len() == old(self).spec_len() + entry.word_count(),
            r.0 == (old(self).spec_len() as u16) << 3,
            selector_index_bits(r.0) == old(self).spec_len(),
            selector_ring_bits(r.0) == 0,
    {
        let index = match entry {
            Descriptor::UserSegment(value) => self.push(value),
            Descriptor::SystemSegment(low, high) => {
                let index = self.push(low);
                self.push(high);
                index
            },
        };
        proof {
            assert(self.entries() =~= old(self).entries() + entry.words());
            let idx16 = index as u16;
            assert((idx16 << 3) | 0 == idx16 << 3) by (bit_vector);
        }
        SegmentSelector::new(index as u16, KernelRings::Ring0)
    }
}

/// What a well-formed table shows of its occupied prefix: the prefix
/// is as long as the slot count, which stays between 1 and the
/// eight-word capacity, and its first word is the null descriptor.
pub proof fn lemma_wf_entries(table: &GlobalDescriptorTable)
    requires
        table.wf(),
    ensures
        table.entries().len() == table.spec_len(),
        1 <= table.spec_len() <= 8,
        table.entries()[0] == 0,
{
}

} // verus!
