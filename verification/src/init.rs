//! The one-time startup tables: the kernel's Global Descriptor Table
//! with its three selectors, the Task State Segment carrying the
//! double-fault stack, and the Interrupt Descriptor Table with every
//! handler this kernel installs.
//!
//! Building the tables is pure and happens here; loading them into the
//! processor (the privileged table-load instructions, the segment
//! register reloads, the task-register load, and finally enabling
//! hardware interrupts) is the caller's job, performed in the order
//! the table contracts assume: descriptor table first, then segment
//! registers, then task register, then the interrupt table.

use vstd::prelude::*;

use crate::gdt::{
    tss_descriptor_high, tss_descriptor_low, Descriptor, GlobalDescriptorTable,
    DESCRIPTOR_EXECUTABLE, DESCRIPTOR_LONG_MODE, DESCRIPTOR_PRESENT, DESCRIPTOR_USER_SEGMENT,
    DESCRIPTOR_WRITABLE,
};
use crate::idt::{spec_empty_gate, spec_gate, IdtIndex, InterruptDescriptorTable};
use crate::pic::{PRIMARY_PIC_OFFSET, SECONDARY_PIC_OFFSET};
use crate::segment::{selector_index_bits, selector_ring_bits, SegmentSelector};
use crate::tss::{TaskStateSegment, TSS_SIZE_BYTES};

verus! {

/// The Task-State-Segment slot that holds the dedicated double-fault
/// stack.
pub const DOUBLE_FAULT_IST_INDEX: u16 = 0;

/// The size of the statically reserved double-fault stack.
pub const INTERRUPT_STACK_SIZE: usize = 4096 * 5;

/// The selectors the startup sequence loads into the segment
/// registers and the task register.
pub struct Selectors {
    pub code_selector: SegmentSelector,
    pub data_selector: SegmentSelector,
    pub tss_selector: SegmentSelector,
}

/// A built Global Descriptor Table together with the selectors its
/// descriptors were assigned.
pub struct GdtContainer {
    pub table: GlobalDescriptorTable,
    pub selectors: Selectors,
}

/// The Task State Segment for this kernel: zeroed but for slot 0 of
/// the Interrupt Stack Table, which records the top of the statically
/// reserved stack the double-fault handler runs on.
pub fn build_kernel_tss(double_fault_stack_top: u64) -> (r: TaskStateSegment)
    ensures
        r.interrupt_stack_table[DOUBLE_FAULT_IST_INDEX as int] == double_fault_stack_top,
        forall|i: int| 0 < i < 7 ==> r.interrupt_stack_table[i] == 0,
        forall|i: int| 0 <= i < 3 ==> r.privilege_stack_table[i] == 0,
        r.iomap_base == TSS_SIZE_BYTES,
{
    let mut tss = TaskStateSegment::new();
    tss.set_interrupt_stack(DOUBLE_FAULT_IST_INDEX as usize, double_fault_stack_top);
    tss
}

/// The kernel's Global Descriptor Table: the null word, the kernel
/// code segment, the kernel data segment, and the two-word system
/// descriptor for the Task State Segment at `tss_base` — together
/// with the ring-0 selectors for the three, whose indices are the
/// slots the descriptors landed in (1, 2 and 3).
pub fn build_kernel_gdt(tss_base: u64) -> (r: GdtContainer)
    ensures
        r.table.wf(),
        r.table.entries() == seq![
            0u64,
            DESCRIPTOR_USER_SEGMENT | DESCRIPTOR_PRESENT | DESCRIPTOR_EXECUTABLE
                | DESCRIPTOR_LONG_MODE,
            DESCRIPTOR_USER_SEGMENT | DESCRIPTOR_PRESENT | DESCRIPTOR_WRITABLE,
            tss_descriptor_low(tss_base),
            tss_descriptor_high(tss_base),
        ],
        r.selectors.code_selector.0 == 8,
        r.selectors.data_selector.0 == 16,
        r.selectors.tss_selector.0 == 24,
        selector_index_bits(r.selectors.code_selector.0) == 1,
        selector_index_bits(r.selectors.data_selector.0) == 2,
        selector_index_bits(r.selectors.tss_selector.0) == 3,
        selector_ring_bits(r.selectors.code_selector.0) == 0,
        selector_ring_bits(r.selectors.data_selector.0) == 0,
        selector_ring_bits(r.selectors.tss_selector.0) == 0,
{
    let mut table = GlobalDescriptorTable::new();
    let code_selector = table.add(Descriptor::kernel_code_segment());
    let data_selector = table.add(Descriptor::kernel_data_segment());
    let tss_selector = table.add(Descriptor::tss_segment(tss_base));

    proof {
        assert(table.entries() =~= seq![
            0u64,
            DESCRIPTOR_USER_SEGMENT | DESCRIPTOR_PRESENT | DESCRIPTOR_EXECUTABLE
                | DESCRIPTOR_LONG_MODE,
            DESCRIPTOR_USER_SEGMENT | DESCRIPTOR_PRESENT | DESCRIPTOR_WRITABLE,
            tss_descriptor_low(tss_base),
            tss_descriptor_high(tss_base),
        ]);
        assert(1u16 << 3 == 8u16 && 2u16 << 3 == 16u16 && 3u16 << 3 == 24u16) by (bit_vector);
    }

    GdtContainer {
        table,
        selectors: Selectors { code_selector, data_selector, tss_selector },
    }
}

/// Whether the vector is one this kernel installs a handler for.
pub open spec fn spec_installed_vector(i: int) -> bool {
    i == IdtIndex::DivideErrorInterruptIndex.spec_vector() as int
        || i == IdtIndex::InvalidOpcodeInterruptIndex.spec_vector() as int
        || i == IdtIndex::BreakpointInterruptIndex.spec_vector() as int
        || i == IdtIndex::DoubleFaultInterruptIndex.spec_vector() as int
        || i == IdtIndex::TimerInterruptIndex.spec_vector() as int
        || i == IdtIndex::KeyboardInterruptIndex.spec_vector() as int
}

/// The two hardware-interrupt vectors this kernel names sit on the
/// first two lines of the primary controller's window, and both
/// controllers' offsets clear the 32 processor-reserved vectors and
/// each other, as the controller constructor demands.
pub proof fn lemma_irq_vectors_match_controller_offsets()
    ensures
        IdtIndex::TimerInterruptIndex.spec_vector() == PRIMARY_PIC_OFFSET,
        IdtIndex::KeyboardInterruptIndex.spec_vector() == PRIMARY_PIC_OFFSET + 1,
        PRIMARY_PIC_OFFSET >= 32,
        SECONDARY_PIC_OFFSET >= 32,
        PRIMARY_PIC_OFFSET <= 247,
        SECONDARY_PIC_OFFSET <= 247,
        SECONDARY_PIC_OFFSET >= PRIMARY_PIC_OFFSET + 8,
{
}

/// The handler addresses the startup sequence binds, one per
/// installed vector. Each is the entry point of a trap trampoline.
pub struct HandlerAddresses {
    pub divide_error: u64,
    pub invalid_opcode: u64,
    pub breakpoint: u64,
    pub double_fault: u64,
    pub timer: u64,
    pub keyboard: u64,
}

/// The kernel's Interrupt Descriptor Table: gates for the divide
/// error, invalid opcode, breakpoint, double fault, timer and
/// keyboard vectors, every one an interrupt gate at ring 0 under the
/// given code-segment selector; every other vector stays dead. The
/// double-fault gate additionally requests the stack switch onto
/// Interrupt-Stack-Table slot 0 (gate field 1: the field counts
/// slots from one, zero meaning no switch), because a double fault
/// must not run on the possibly exhausted or corrupt stack that
/// caused it.
pub fn build_kernel_idt(
    handlers: &HandlerAddresses,
    code_selector: SegmentSelector,
) -> (r: InterruptDescriptorTable)
    ensures
        r.entries().len() == 256,
        r.entries()[IdtIndex::DivideErrorInterruptIndex.spec_vector() as int] == spec_gate(
            handlers.divide_error,
            code_selector,
        ),
        r.entries()[IdtIndex::InvalidOpcodeInterruptIndex.spec_vector() as int] == spec_gate(
            handlers.invalid_opcode,
            code_selector,
        ),
        r.entries()[IdtIndex::BreakpointInterruptIndex.spec_vector() as int] == spec_gate(
            handlers.breakpoint,
            code_selector,
        ),
        r.entries()[IdtIndex::TimerInterruptIndex.spec_vector() as int] == spec_gate(
            handlers.timer,
            code_selector,
        ),
        r.entries()[IdtIndex::KeyboardInterruptIndex.spec_vector() as int] == spec_gate(
            handlers.keyboard,
            code_selector,
        ),
        r.entries()[IdtIndex::DoubleFaultInterruptIndex.spec_vector() as int].isr_address_low
            == spec_gate(handlers.double_fault, code_selector).isr_address_low,
        r.entries()[IdtIndex::DoubleFaultInterruptIndex.spec_vector() as int].isr_address_mid
            == spec_gate(handlers.double_fault, code_selector).isr_address_mid,
        r.entries()[IdtIndex::DoubleFaultInterruptIndex.spec_vector() as int].isr_address_high
            == spec_gate(handlers.double_fault, code_selector).isr_address_high,
        r.entries()[IdtIndex::DoubleFaultInterruptIndex.spec_vector() as int].segment_selector
            == code_selector,
        r.entries()[IdtIndex::DoubleFaultInterruptIndex.spec_vector() as int].reserved == 0,
        r.entries()[IdtIndex::DoubleFaultInterruptIndex.spec_vector() as int].idt_entry_options@
            == 0x8E01,
        forall|i: int|
            0 <= i < 256 && !spec_installed_vector(i) ==> (#[trigger] r.entries()[i])
                == spec_empty_gate(),
{
    let mut idt = InterruptDescriptorTable::new();

    idt.add_interrupt_handler(
        IdtIndex::DivideErrorInterruptIndex,
        handlers.divide_error,
        code_selector,
    );
    idt.add_interrupt_handler(
        IdtIndex::InvalidOpcodeInterruptIndex,
        handlers.invalid_opcode,
        code_selector,
    );
    idt.add_interrupt_handler(
        IdtIndex::BreakpointInterruptIndex,
        handlers.breakpoint,
        code_selector,
    );

    // The Interrupt-Stack-Table field counts slots from one; slot
    // DOUBLE_FAULT_IST_INDEX of the segment is requested by field
    // value DOUBLE_FAULT_IST_INDEX + 1.
    idt.add_interrupt_handler(
        IdtIndex::DoubleFaultInterruptIndex,
        handlers.double_fault,
        code_selector,
    );
    idt.set_interrupt_stack_table_offset(
        IdtIndex::DoubleFaultInterruptIndex,
        (DOUBLE_FAULT_IST_INDEX + 1) as u8,
    );

    idt.add_interrupt_handler(IdtIndex::TimerInterruptIndex, handlers.timer, code_selector);
    idt.add_interrupt_handler(IdtIndex::KeyboardInterruptIndex, handlers.keyboard, code_selector);

    proof {
        crate::idt::lemma_spec_gate_fields(handlers.double_fault, code_selector);
        assert((0x8E00u16 & !7) | 1u16 == 0x8E01u16) by (bit_vector);
    }

    idt
}

} // verus!
