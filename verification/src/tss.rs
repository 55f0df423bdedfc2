//! The 64-bit Task State Segment: per-ring stack pointers and the
//! Interrupt Stack Table.
//!
//! The hardware reads this structure through a system descriptor in the
//! Global Descriptor Table; loading the task register is a privileged
//! instruction performed outside this crate.

use vstd::prelude::*;

verus! {

/// The architectural minimum size of a 64-bit Task State Segment.
pub const TSS_SIZE_BYTES: u64 = 0x68;

/// The 64-bit Task State Segment. In long mode it carries no task
/// state; it holds the stack pointers used on privilege changes, the
/// seven Interrupt-Stack-Table entries, and the offset of the I/O
/// permission bitmap.
#[derive(Debug, Clone, Copy)]
pub struct TaskStateSegment {
    pub reserved_1: u32,
    /// Stack pointers loaded on a transition into rings 0, 1 and 2.
    pub privilege_stack_table: [u64; 3],
    pub reserved_2: u64,
    /// Stack pointers selected by a gate whose stack-table index is
    /// other than "none".
    pub interrupt_stack_table: [u64; 7],
    pub reserved_3: u64,
    pub reserved_4: u16,
    /// Offset of the I/O permission bitmap from the segment base; a
    /// value at or past the structure's end means no bitmap is present.
    pub iomap_base: u16,
}

impl TaskStateSegment {
    /// A zeroed segment whose bitmap offset points just past the
    /// structure, signalling that no I/O permission bitmap exists.
    pub fn new() -> (r: TaskStateSegment)
        ensures
            r.reserved_1 == 0,
            r.reserved_2 == 0,
            r.reserved_3 == 0,
            r.reserved_4 == 0,
            r.iomap_base == TSS_SIZE_BYTES,
            forall|i: int| 0 <= i < 3 ==> r.privilege_stack_table[i] == 0,
            forall|i: int| 0 <= i < 7 ==> r.interrupt_stack_table[i] == 0,
    {
        TaskStateSegment {
            privilege_stack_table: [0u64; 3],
            interrupt_stack_table: [0u64; 7],
            iomap_base: TSS_SIZE_BYTES as u16,
            reserved_1: 0,
            reserved_2: 0,
            reserved_3: 0,
            reserved_4: 0,
        }
    }

    /// Record the top address of a reserved stack region in the given
    /// Interrupt-Stack-Table slot.
    pub fn set_interrupt_stack(&mut self, index: usize, stack_top: u64)
        requires
            index < 7,
        ensures
            final(self).interrupt_stack_table@ == old(self).interrupt_stack_table@.update(
                index as int,
                stack_top,
            ),
            final(self).privilege_stack_table == old(self).privilege_stack_table,
            final(self).iomap_base == old(self).iomap_base,
            final(self).reserved_1 == old(self).reserved_1,
            final(self).reserved_2 == old(self).reserved_2,
            final(self).reserved_3 == old(self).reserved_3,
            final(self).reserved_4 == old(self).reserved_4,
    {
        self.interrupt_stack_table[index] = stack_top;
    }
}

} // verus!
