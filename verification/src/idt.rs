//! The Interrupt Descriptor Table: 256 gate descriptors mapping
//! interrupt vectors to handler addresses.
//!
//! A gate records the 64-bit handler address split into three fields,
//! the code-segment selector the handler runs under, and a 16-bit
//! options word (present bit, gate type, privilege ring, and an
//! optional Interrupt-Stack-Table index). Loading the finished table
//! into the processor is a privileged instruction that lives outside
//! this crate.

use vstd::prelude::*;

use crate::bitfield::{get_bit_u16, get_bits_u16, set_bit_u16, set_bits_u16};
use crate::privilege::KernelRings;
use crate::segment::SegmentSelector;

verus! {

/// The interrupt vectors this kernel knows by name: the processor's
/// exception vectors 0..=21 and the two remapped hardware-interrupt
/// lines (timer and keyboard) on the primary interrupt controller.
#[derive(Debug, Copy, Clone, PartialEq, Eq, Hash, Structural)]
pub enum IdtIndex {
    DivideErrorInterruptIndex,
    DebugExceptionInterruptIndex,
    NmiInterruptIndex,
    BreakpointInterruptIndex,
    OverflowInterruptIndex,
    BoundRangeExceededInterruptIndex,
    InvalidOpcodeInterruptIndex,
    DeviceNotAvailableInterruptIndex,
    DoubleFaultInterruptIndex,
    CoprocessorSegmentOverrunInterruptIndex,
    InvalidTssInterruptIndex,
    SegmentNotPresentInterruptIndex,
    StackSegmentFaultInterruptIndex,
    GeneralProtectionInterruptIndex,
    PageFaultInterruptIndex,
    ReservedIndex1,
    FpuFloatingPointErrorInterruptIndex,
    AlignmentCheckInterruptIndex,
    MachineCheckInterruptIndex,
    SimdFloatingPointExceptionInterruptIndex,
    VirtualizationExceptionInterruptIndex,
    ControlProtectionExceptionInterruptIndex,
    TimerInterruptIndex,
    KeyboardInterruptIndex,
}

impl IdtIndex {
    /// The vector number of this interrupt.
    pub open spec fn spec_vector(self) -> u8 {
        match self {
            IdtIndex::DivideErrorInterruptIndex => 0,
            IdtIndex::DebugExceptionInterruptIndex => 1,
            IdtIndex::NmiInterruptIndex => 2,
            IdtIndex::BreakpointInterruptIndex => 3,
            IdtIndex::OverflowInterruptIndex => 4,
            IdtIndex::BoundRangeExceededInterruptIndex => 5,
            IdtIndex::InvalidOpcodeInterruptIndex => 6,
            IdtIndex::DeviceNotAvailableInterruptIndex => 7,
            IdtIndex::DoubleFaultInterruptIndex => 8,
            IdtIndex::CoprocessorSegmentOverrunInterruptIndex => 9,
            IdtIndex::InvalidTssInterruptIndex => 10,
            IdtIndex::SegmentNotPresentInterruptIndex => 11,
            IdtIndex::StackSegmentFaultInterruptIndex => 12,
            IdtIndex::GeneralProtectionInterruptIndex => 13,
            IdtIndex::PageFaultInterruptIndex => 14,
            IdtIndex::ReservedIndex1 => 15,
            IdtIndex::FpuFloatingPointErrorInterruptIndex => 16,
            IdtIndex::AlignmentCheckInterruptIndex => 17,
            IdtIndex::MachineCheckInterruptIndex => 18,
            IdtIndex::SimdFloatingPointExceptionInterruptIndex => 19,
            IdtIndex::VirtualizationExceptionInterruptIndex => 20,
            IdtIndex::ControlProtectionExceptionInterruptIndex => 21,
            IdtIndex::TimerInterruptIndex => 104,
            IdtIndex::KeyboardInterruptIndex => 105,
        }
    }

    /// The vector number of this interrupt.
    #[verifier::when_used_as_spec(spec_vector)]
    pub fn vector(self) -> (r: u8)
        ensures
            r == self.spec_vector(),
    {
        match self {
            IdtIndex::DivideErrorInterruptIndex => 0,
            IdtIndex::DebugExceptionInterruptIndex => 1,
            IdtIndex::NmiInterruptIndex => 2,
            IdtIndex::BreakpointInterruptIndex => 3,
            IdtIndex::OverflowInterruptIndex => 4,
            IdtIndex::BoundRangeExceededInterruptIndex => 5,
            IdtIndex::InvalidOpcodeInterruptIndex => 6,
            IdtIndex::DeviceNotAvailableInterruptIndex => 7,
            IdtIndex::DoubleFaultInterruptIndex => 8,
            IdtIndex::CoprocessorSegmentOverrunInterruptIndex => 9,
            IdtIndex::InvalidTssInterruptIndex => 10,
            IdtIndex::SegmentNotPresentInterruptIndex => 11,
            IdtIndex::StackSegmentFaultInterruptIndex => 12,
            IdtIndex::GeneralProtectionInterruptIndex => 13,
            IdtIndex::PageFaultInterruptIndex => 14,
            IdtIndex::ReservedIndex1 => 15,
            IdtIndex::FpuFloatingPointErrorInterruptIndex => 16,
            IdtIndex::AlignmentCheckInterruptIndex => 17,
            IdtIndex::MachineCheckInterruptIndex => 18,
            IdtIndex::SimdFloatingPointExceptionInterruptIndex => 19,
            IdtIndex::VirtualizationExceptionInterruptIndex => 20,
            IdtIndex::ControlProtectionExceptionInterruptIndex => 21,
            IdtIndex::TimerInterruptIndex => 104,
            IdtIndex::KeyboardInterruptIndex => 105,
        }
    }
}

/// The kind of a gate: an interrupt gate masks further interrupts for
/// the duration of the handler, a trap gate does not.
#[derive(Debug, Copy, Clone, PartialEq, Eq, Hash, Structural)]
pub enum GateType {
    InterruptGateType,
    TrapGateType,
}

impl GateType {
    /// The four-bit hardware encoding of this gate type.
    pub open spec fn spec_value(self) -> u16 {
        match self {
            GateType::InterruptGateType => 0x0E,
            GateType::TrapGateType => 0x0F,
        }
    }

    /// The four-bit hardware encoding of this gate type.
    #[verifier::when_used_as_spec(spec_value)]
    pub fn value(self) -> (r: u16)
        ensures
            r == self.spec_value(),
    {
        match self {
            GateType::InterruptGateType => 0x0E,
            GateType::TrapGateType => 0x0F,
        }
    }

    /// Decode a four-bit type encoding. Anything but the two
    /// legal encodings marks a malformed table and is rejected up
    /// front.
    pub fn new(gate_type: u16) -> (r: Self)
        requires
            gate_type == 0x0E || gate_type == 0x0F,
        ensures
            r.spec_value() == gate_type,
    {
        match gate_type {
            0x0E => GateType::InterruptGateType,
            _ => GateType::TrapGateType,
        }
    }
}

/// The Interrupt-Stack-Table index held in bits 0..3 of an options
/// word.
pub open spec fn options_ist(word: u16) -> u16 {
    word & 7
}

/// A gate's type field, held in bits 8..12 of an options word.
pub open spec fn options_gate_type(word: u16) -> u16 {
    (word >> 8) & 0xF
}

/// The descriptor privilege ring held in bits 13..15 of an options
/// word.
pub open spec fn options_dpl(word: u16) -> u16 {
    (word >> 13) & 3
}

/// The present bit (bit 15) of an options word.
pub open spec fn options_present(word: u16) -> bool {
    (word >> 15) & 1 == 1
}

/// The 16-bit options word of a gate descriptor: bits 0..3 hold the
/// Interrupt-Stack-Table index, bits 8..12 its type, bits 13..15
/// the descriptor privilege ring, bit 15 the present flag.
#[derive(Debug, Clone, Copy)]
pub struct IdtEntryOptions(u16);

impl View for IdtEntryOptions {
    type V = u16;

    closed spec fn view(&self) -> u16 {
        self.0
    }
}

impl IdtEntryOptions {
    /// An all-clear options word: not present, no stack switch, ring 0.
    pub fn new() -> (r: Self)
        ensures
            r@ == 0,
    {
        IdtEntryOptions(0)
    }

    /// The raw options word.
    pub fn value(&self) -> (r: u16)
        ensures
            r == self@,
    {
        self.0
    }

    /// Whether this gate is marked valid.
    pub fn present(&self) -> (r: bool)
        ensures
            r == options_present(self@),
    {
        get_bit_u16(self.0, 15)
    }

    /// Set or clear the present bit; every other field keeps its value.
    pub fn set_present(&mut self, present: bool)
        ensures
            final(self)@ == (if present {
                old(self)@ | 0x8000u16
            } else {
                old(self)@ & !0x8000u16
            }),
            options_present(final(self)@) == present,
            options_ist(final(self)@) == options_ist(old(self)@),
            options_gate_type(final(self)@) == options_gate_type(old(self)@),
            options_dpl(final(self)@) == options_dpl(old(self)@),
    {
        self.0 = set_bit_u16(self.0, 15, present);
        proof {
            let w0 = old(self)@;
            let w1 = self@;
            assert(((w1 >> 15) & 1 == 1) == present && w1 & 7 == w0 & 7 && (w1 >> 8) & 0xF == (w0
                >> 8) & 0xF && (w1 >> 13) & 3 == (w0 >> 13) & 3) by (bit_vector)
                requires
                    w1 == (if present {
                        w0 | (1u16 << 15)
                    } else {
                        w0 & !(1u16 << 15)
                    }),
            ;
            assert(1u16 << 15 == 0x8000u16) by (bit_vector);
        }
    }

    /// The privilege ring a caller needs to enter through this gate.
    pub fn descriptor_privilege_level(&self) -> (r: KernelRings)
        ensures
            r.spec_value() == options_dpl(self@),
    {
        let bits = get_bits_u16(self.0, 13, 15);
        proof {
            let w = self@;
            assert((w >> 13) & crate::bitfield::low_mask_u16(2) == (w >> 13) & 3 && (w >> 13) & 3
                <= 3) by (bit_vector);
        }
        KernelRings::new(bits)
    }

    /// Set the descriptor privilege ring; every other field keeps its
    /// value.
    pub fn set_descriptor_privilege_level(&mut self, kernel_ring: KernelRings)
        ensures
            final(self)@ == (old(self)@ & !0x6000u16) | (kernel_ring.spec_value() << 13),
            options_dpl(final(self)@) == kernel_ring.spec_value(),
            options_present(final(self)@) == options_present(old(self)@),
            options_ist(final(self)@) == options_ist(old(self)@),
            options_gate_type(final(self)@) == options_gate_type(old(self)@),
    {
        let ring_value = kernel_ring.value();
        proof {
            let r = ring_value;
            assert(r < (1u16 << ((15u16 - 13u16) as u16))) by (bit_vector)
                requires
                    r <= 3,
            ;
        }
        self.0 = set_bits_u16(self.0, 13, 15, ring_value);
        proof {
            let w0 = old(self)@;
            let w1 = self@;
            let r = ring_value;
            assert(w1 == (w0 & !0x6000u16) | (r << 13) && (w1 >> 13) & 3 == r && ((w1 >> 15) & 1
                == 1) == ((w0 >> 15) & 1 == 1) && w1 & 7 == w0 & 7 && (w1 >> 8) & 0xF == (w0 >> 8)
                & 0xF) by (bit_vector)
                requires
                    r <= 3,
                    w1 == (w0 & !(crate::bitfield::low_mask_u16(2) << 13)) | (r << 13),
            ;
        }
    }

    /// This gate's type field. The caller must know the word holds one of
    /// the two legal encodings, as every word written by this type
    /// does.
    pub fn gate_type(&self) -> (r: GateType)
        requires
            options_gate_type(self@) == 0x0E || options_gate_type(self@) == 0x0F,
        ensures
            r.spec_value() == options_gate_type(self@),
    {
        let bits = get_bits_u16(self.0, 8, 12);
        proof {
            let w = self@;
            assert((w >> 8) & crate::bitfield::low_mask_u16(4) == (w >> 8) & 0xF) by (bit_vector);
        }
        GateType::new(bits)
    }

    /// Set this gate's type; every other field keeps its value.
    pub fn set_gate_type(&mut self, gate_type: GateType)
        ensures
            final(self)@ == (old(self)@ & !0x0F00u16) | (gate_type.spec_value() << 8),
            options_gate_type(final(self)@) == gate_type.spec_value(),
            options_present(final(self)@) == options_present(old(self)@),
            options_ist(final(self)@) == options_ist(old(self)@),
            options_dpl(final(self)@) == options_dpl(old(self)@),
    {
        let type_value = gate_type.value();
        proof {
            let t = type_value;
            assert(t < (1u16 << ((12u16 - 8u16) as u16))) by (bit_vector)
                requires
                    t == 0x0E || t == 0x0F,
            ;
        }
        self.0 = set_bits_u16(self.0, 8, 12, type_value);
        proof {
            let w0 = old(self)@;
            let w1 = self@;
            let t = type_value;
            assert(w1 == (w0 & !0x0F00u16) | (t << 8) && (w1 >> 8) & 0xF == t && ((w1 >> 15) & 1
                == 1) == ((w0 >> 15) & 1 == 1) && w1 & 7 == w0 & 7 && (w1 >> 13) & 3 == (w0 >> 13)
                & 3) by (bit_vector)
                requires
                    t <= 0xF,
                    w1 == (w0 & !(crate::bitfield::low_mask_u16(4) << 8)) | (t << 8),
            ;
        }
    }

    /// The Interrupt-Stack-Table index (0 means the hardware switches
    /// no stack).
    pub fn interrupt_stack_table_offset(&self) -> (r: u16)
        ensures
            r == options_ist(self@),
    {
        let bits = get_bits_u16(self.0, 0, 3);
        proof {
            let w = self@;
            assert((w >> 0) & crate::bitfield::low_mask_u16(3) == w & 7) by (bit_vector);
        }
        bits
    }

    /// Select an Interrupt-Stack-Table entry; every other field keeps
    /// its value. The field is three bits wide, so an index above 7 is
    /// a configuration bug and is rejected up front rather than
    /// truncated.
    pub fn set_interrupt_stack_table_offset(&mut self, offset: u8)
        requires
            offset <= 7,
        ensures
            final(self)@ == (old(self)@ & !7) | (offset as u16),
            options_ist(final(self)@) == offset,
            options_present(final(self)@) == options_present(old(self)@),
            options_gate_type(final(self)@) == options_gate_type(old(self)@),
            options_dpl(final(self)@) == options_dpl(old(self)@),
    {
        let field = offset as u16;
        proof {
            let f = field;
            assert(f < (1u16 << ((3u16 - 0u16) as u16))) by (bit_vector)
                requires
                    f <= 7,
            ;
        }
        self.0 = set_bits_u16(self.0, 0, 3, field);
        proof {
            let w0 = old(self)@;
            let w1 = self@;
            let f = field;
            assert(w1 == (w0 & !7) | f && w1 & 7 == f && ((w1 >> 15) & 1 == 1) == ((w0 >> 15) & 1
                == 1) && (w1 >> 8) & 0xF == (w0 >> 8) & 0xF && (w1 >> 13) & 3 == (w0 >> 13) & 3)
                by (bit_vector)
                requires
                    f <= 7,
                    w1 == (w0 & !(crate::bitfield::low_mask_u16(3) << 0)) | (f << 0),
            ;
        }
    }
}

/// Setting then reading each field of an options word returns exactly
/// the value that was written, and leaves every other field alone; in
/// particular a legal Interrupt-Stack-Table index (at most 7) always
/// round-trips.
pub proof fn lemma_options_ist_round_trip(word: u16, offset: u16)
    requires
        offset <= 7,
    ensures
        options_ist((word & !7) | offset) == offset,
        options_present((word & !7) | offset) == options_present(word),
        options_gate_type((word & !7) | offset) == options_gate_type(word),
        options_dpl((word & !7) | offset) == options_dpl(word),
{
    assert(offset <= 7 ==> ((word & !7) | offset) & 7 == offset && ((((word & !7) | offset) >> 15)
        & 1 == 1) == ((word >> 15) & 1 == 1) && (((word & !7) | offset) >> 8) & 0xF == (word >> 8)
        & 0xF && (((word & !7) | offset) >> 13) & 3 == (word >> 13) & 3) by (bit_vector);
}

/// One 16-byte gate descriptor: the handler address split into three
/// fields, the code-segment selector the handler runs under, and the
/// options word.
#[derive(Debug, Clone, Copy)]
pub struct IdtEntry {
    /// Bits 0..16 of the handler address.
    pub isr_address_low: u16,
    /// The code segment the handler executes in; it must name a valid
    /// code segment of the loaded Global Descriptor Table.
    pub segment_selector: SegmentSelector,
    /// This gate's raw options word.
    pub idt_entry_options: IdtEntryOptions,
    /// Bits 16..32 of the handler address.
    pub isr_address_mid: u16,
    /// Bits 32..64 of the handler address.
    pub isr_address_high: u32,
    pub reserved: u32,
}

impl IdtEntry {
    /// The handler address reassembled from its three fields.
    pub open spec fn spec_handler_address(self) -> u64 {
        (self.isr_address_low as u64) | ((self.isr_address_mid as u64) << 16) | ((
        self.isr_address_high as u64) << 32)
    }

    /// The handler address reassembled from its three fields.
    pub fn handler_address(&self) -> (r: u64)
        ensures
            r == self.spec_handler_address(),
    {
        (self.isr_address_low as u64) | ((self.isr_address_mid as u64) << 16) | ((
        self.isr_address_high as u64) << 32)
    }

    /// A live gate: the handler address split across the three address
    /// fields, marked present, of interrupt-gate type, ring 0, no
    /// stack switch.
    pub fn new(handler: u64, segment_selector: SegmentSelector) -> (r: IdtEntry)
        ensures
            r == spec_gate(handler, segment_selector),
            r.isr_address_low == handler as u16,
            r.isr_address_mid == (handler >> 16) as u16,
            r.isr_address_high == (handler >> 32) as u32,
            r.segment_selector == segment_selector,
            r.reserved == 0,
            r.spec_handler_address() == handler,
            r.idt_entry_options@ == 0x8E00,
            options_present(r.idt_entry_options@),
            options_gate_type(r.idt_entry_options@) == GateType::InterruptGateType.spec_value(),
            options_ist(r.idt_entry_options@) == 0,
            options_dpl(r.idt_entry_options@) == 0,
    {
        let mut options = IdtEntryOptions::new();
        // Mark the descriptor valid and mask interrupts while the
        // handler runs.
        options.set_present(true);
        options.set_gate_type(GateType::InterruptGateType);
        proof {
            assert(((0u16 | 0x8000u16) & !0x0F00u16) | (0x0Eu16 << 8) == 0x8E00u16) by (bit_vector);
            assert((0x8E00u16 >> 15) & 1 == 1 && (0x8E00u16 >> 8) & 0xF == 0x0E && 0x8E00u16 & 7
                == 0 && (0x8E00u16 >> 13) & 3 == 0) by (bit_vector);
            lemma_handler_address_round_trip(handler);
        }
        IdtEntry {
            isr_address_low: handler as u16,
            isr_address_mid: (handler >> 16) as u16,
            isr_address_high: (handler >> 32) as u32,
            segment_selector,
            idt_entry_options: options,
            reserved: 0,
        }
    }

    /// A dead gate: no handler, null selector, all options clear; in
    /// particular the present bit is clear, so the hardware treats the
    /// vector as unhandled.
    pub fn empty() -> (r: IdtEntry)
        ensures
            r == spec_empty_gate(),
            r.spec_handler_address() == 0,
            r.idt_entry_options@ == 0,
            !options_present(r.idt_entry_options@),
    {
        proof {
            assert((0u64 | (0u64 << 16) | (0u64 << 32)) == 0 && !((0u16 >> 15) & 1 == 1)) by (
            bit_vector);
        }
        IdtEntry {
            isr_address_low: 0,
            isr_address_mid: 0,
            isr_address_high: 0,
            segment_selector: SegmentSelector(0),
            idt_entry_options: IdtEntryOptions::new(),
            reserved: 0,
        }
    }
}

/// What installing `handler` under
/// `segment_selector` produces.
pub closed spec fn spec_gate(handler: u64, segment_selector: SegmentSelector) -> IdtEntry {
    IdtEntry {
        isr_address_low: handler as u16,
        isr_address_mid: (handler >> 16) as u16,
        isr_address_high: (handler >> 32) as u32,
        segment_selector,
        idt_entry_options: IdtEntryOptions(0x8E00),
        reserved: 0,
    }
}

/// An untouched table slot's descriptor.
pub closed spec fn spec_empty_gate() -> IdtEntry {
    IdtEntry {
        isr_address_low: 0,
        isr_address_mid: 0,
        isr_address_high: 0,
        segment_selector: SegmentSelector(0),
        idt_entry_options: IdtEntryOptions(0),
        reserved: 0,
    }
}

/// Splitting a handler address into the three gate fields and
/// reassembling them (low, then middle shifted by 16, then high
/// shifted by 32) yields back exactly the address that was split.
pub proof fn lemma_handler_address_round_trip(handler: u64)
    ensures
        ((handler as u16) as u64) | ((((handler >> 16) as u16) as u64) << 16) | ((((handler
            >> 32) as u32) as u64) << 32) == handler,
{
    assert(((handler as u16) as u64) | ((((handler >> 16) as u16) as u64) << 16) | ((((handler
        >> 32) as u32) as u64) << 32) == handler) by (bit_vector);
}

/// The Interrupt Descriptor Table: one gate for each of the 256
/// interrupt vectors. Freshly built tables hold only dead gates; the
/// table is populated once at startup, loaded, and never mutated
/// again.
pub struct InterruptDescriptorTable([IdtEntry; 256]);

impl InterruptDescriptorTable {
    /// The 256 gates, in vector order.
    pub closed spec fn entries(self) -> Seq<IdtEntry> {
        self.0@
    }

    /// A table whose 256 gates are all dead: any interrupt delivered
    /// before a handler is installed is a fatal, unhandled condition.
    pub fn new() -> (r: Self)
        ensures
            r.entries().len() == 256,
            forall|i: int| 0 <= i < 256 ==> (#[trigger] r.entries()[i]) == spec_empty_gate(),
    {
        let empty = IdtEntry::empty();
        InterruptDescriptorTable([empty; 256])
    }

    /// The limit field of the descriptor-table pointer handed to the
    /// privileged load instruction: the offset of the table's last
    /// byte (the bound is inclusive).
    pub fn pointer_limit(&self) -> (r: u16)
        ensures
            r == 256 * 16 - 1,
    {
        4095
    }

    /// All 256 descriptors as a slice, for inspection and for building the
    /// loadable image.
    pub fn table(&self) -> (r: &[IdtEntry; 256])
        ensures
            r@ == self.entries(),
    {
        &self.0
    }

    /// Install `handler` at the given vector: its slot holds the split
    /// handler address and the given code-segment selector, is marked
    /// present, of interrupt-gate type, ring 0, and requests no stack
    /// switch. Every other gate keeps its value.
    pub fn add_interrupt_handler(
        &mut self,
        interrupt_index: IdtIndex,
        handler: u64,
        segment_selector: SegmentSelector,
    )
        ensures
            final(self).entries() == old(self).entries().update(
                interrupt_index.spec_vector() as int,
                spec_gate(handler, segment_selector),
            ),
    {
        let index = interrupt_index.vector() as usize;
        self.0[index] = IdtEntry::new(handler, segment_selector);
    }

    /// Select an Interrupt-Stack-Table entry for the given vector's
    /// descriptor; everything else about that descriptor, and every other slot,
    /// keeps its value. An index above 7 does not fit the three-bit
    /// field and is rejected up front.
    pub fn set_interrupt_stack_table_offset(&mut self, interrupt_index: IdtIndex, offset: u8)
        requires
            offset <= 7,
        ensures
            final(self).entries().len() == 256,
            forall|i: int|
                0 <= i < 256 && i != interrupt_index.spec_vector() as int ==> (#[trigger] final(self).entries()[i]) == old(self).entries()[i],
            final(self).entries()[interrupt_index.spec_vector() as int].idt_entry_options@ == (old(self).entries()[interrupt_index.spec_vector() as int].idt_entry_options@ & !7) | (
            offset as u16),
            final(self).entries()[interrupt_index.spec_vector() as int].isr_address_low == old(self).entries()[interrupt_index.spec_vector() as int].isr_address_low,
            final(self).entries()[interrupt_index.spec_vector() as int].isr_address_mid == old(self).entries()[interrupt_index.spec_vector() as int].isr_address_mid,
            final(self).entries()[interrupt_index.spec_vector() as int].isr_address_high == old(self).entries()[interrupt_index.spec_vector() as int].isr_address_high,
            final(self).entries()[interrupt_index.spec_vector() as int].segment_selector == old(self).entries()[interrupt_index.spec_vector() as int].segment_selector,
            final(self).entries()[interrupt_index.spec_vector() as int].reserved == old(self).entries()[interrupt_index.spec_vector() as int].reserved,
            options_ist(final(self).entries()[interrupt_index.spec_vector() as int].idt_entry_options@)
                == offset,
            options_present(
                final(self).entries()[interrupt_index.spec_vector() as int].idt_entry_options@,
            ) == options_present(
                old(self).entries()[interrupt_index.spec_vector() as int].idt_entry_options@,
            ),
            options_gate_type(
                final(self).entries()[interrupt_index.spec_vector() as int].idt_entry_options@,
            ) == options_gate_type(
                old(self).entries()[interrupt_index.spec_vector() as int].idt_entry_options@,
            ),
    {
        let index = interrupt_index.vector() as usize;
        let mut entry = self.0[index];
        let mut options = entry.idt_entry_options;
        options.set_interrupt_stack_table_offset(offset);
        entry.idt_entry_options = options;
        self.0[index] = entry;
    }
}


/// The exact shape of an installed gate: the split address fields,
/// the selector, and the options word 0x8E00 (present, interrupt
/// gate, ring 0, no stack switch).
pub proof fn lemma_spec_gate_fields(handler: u64, segment_selector: SegmentSelector)
    ensures
        spec_gate(handler, segment_selector).isr_address_low == handler as u16,
        spec_gate(handler, segment_selector).isr_address_mid == (handler >> 16) as u16,
        spec_gate(handler, segment_selector).isr_address_high == (handler >> 32) as u32,
        spec_gate(handler, segment_selector).segment_selector == segment_selector,
        spec_gate(handler, segment_selector).reserved == 0,
        spec_gate(handler, segment_selector).idt_entry_options@ == 0x8E00,
        spec_gate(handler, segment_selector).spec_handler_address() == handler,
        options_present(spec_gate(handler, segment_selector).idt_entry_options@),
        options_gate_type(spec_gate(handler, segment_selector).idt_entry_options@) == 0x0E,
        options_ist(spec_gate(handler, segment_selector).idt_entry_options@) == 0,
        options_dpl(spec_gate(handler, segment_selector).idt_entry_options@) == 0,
{
    assert((0x8E00u16 >> 15) & 1 == 1 && (0x8E00u16 >> 8) & 0xF == 0x0E && 0x8E00u16 & 7 == 0 && (
    0x8E00u16 >> 13) & 3 == 0) by (bit_vector);
    lemma_handler_address_round_trip(handler);
}

/// The exact shape of an untouched gate: every field zero, hence not
/// present.
pub proof fn lemma_spec_empty_gate_fields()
    ensures
        spec_empty_gate().isr_address_low == 0,
        spec_empty_gate().isr_address_mid == 0,
        spec_empty_gate().isr_address_high == 0,
        spec_empty_gate().segment_selector == SegmentSelector(0),
        spec_empty_gate().reserved == 0,
        spec_empty_gate().idt_entry_options@ == 0,
        spec_empty_gate().spec_handler_address() == 0,
        !options_present(spec_empty_gate().idt_entry_options@),
{
    assert(!((0u16 >> 15) & 1 == 1) && (0u64 | (0u64 << 16) | (0u64 << 32)) == 0) by (bit_vector);
}

} // verus!
