use triad::idt::{
    GateType, IdtEntry, IdtEntryOptions, IdtIndex, InterruptDescriptorTable,
};
use triad::privilege::KernelRings;
use triad::segment::SegmentSelector;

fn kernel_code_selector() -> SegmentSelector {
    SegmentSelector::new(1, KernelRings::Ring0)
}

#[test]
fn test_idt_entry_construction() {
    let test_handler_address: u64 = 0x1234_5678_9ABC_DEF0;

    let idt_entry = IdtEntry::new(test_handler_address, kernel_code_selector());
    assert_eq!(idt_entry.isr_address_low, test_handler_address as u16);
    assert_eq!(idt_entry.isr_address_mid, (test_handler_address >> 16) as u16);
    assert_eq!(idt_entry.isr_address_high, (test_handler_address >> 32) as u32);
    assert_eq!(idt_entry.idt_entry_options.present(), true);
    assert_eq!(idt_entry.idt_entry_options.gate_type(), GateType::InterruptGateType);
    assert_eq!(idt_entry.handler_address(), test_handler_address);
}

#[test]
fn entry_address_from_real_function() {
    fn marker() {}
    let address = marker as usize as u64;
    let entry = IdtEntry::new(address, kernel_code_selector());
    let reassembled = (entry.isr_address_low as u64)
        | ((entry.isr_address_mid as u64) << 16)
        | ((entry.isr_address_high as u64) << 32);
    assert_eq!(reassembled, address);
}

#[test]
fn fresh_table_has_no_present_gate() {
    let idt = InterruptDescriptorTable::new();
    for entry in idt.table().iter() {
        assert!(!entry.idt_entry_options.present());
        assert_eq!(entry.handler_address(), 0);
    }
}

#[test]
fn test_idt_divide_error_setup() {
    let divide_error_handler_address: u64 = 0xFFFF_8000_0010_2030;

    let mut idt = InterruptDescriptorTable::new();
    idt.add_interrupt_handler(
        IdtIndex::DivideErrorInterruptIndex,
        divide_error_handler_address,
        kernel_code_selector(),
    );

    let vector = IdtIndex::DivideErrorInterruptIndex.vector() as usize;
    assert_eq!(vector, 0);
    let entry = idt.table()[vector];
    assert_eq!(entry.idt_entry_options.present(), true);
    assert_eq!(entry.idt_entry_options.gate_type(), GateType::InterruptGateType);
    assert_eq!(
        entry.idt_entry_options.descriptor_privilege_level(),
        KernelRings::Ring0
    );
    assert_eq!(entry.isr_address_low, divide_error_handler_address as u16);
    assert_eq!(entry.isr_address_mid, (divide_error_handler_address >> 16) as u16);
    assert_eq!(entry.isr_address_high, (divide_error_handler_address >> 32) as u32);
}

#[test]
fn test_idt_invalid_opcode_setup() {
    let invalid_opcode_handler_address: u64 = 0xFFFF_8000_0777_0001;

    let mut idt = InterruptDescriptorTable::new();
    idt.add_interrupt_handler(
        IdtIndex::InvalidOpcodeInterruptIndex,
        invalid_opcode_handler_address,
        kernel_code_selector(),
    );

    let vector = IdtIndex::InvalidOpcodeInterruptIndex.vector() as usize;
    assert_eq!(vector, 6);
    let entry = idt.table()[vector];
    assert_eq!(entry.idt_entry_options.present(), true);
    assert_eq!(entry.idt_entry_options.gate_type(), GateType::InterruptGateType);
    assert_eq!(entry.isr_address_low, invalid_opcode_handler_address as u16);
    assert_eq!(entry.isr_address_mid, (invalid_opcode_handler_address >> 16) as u16);
    assert_eq!(entry.isr_address_high, (invalid_opcode_handler_address >> 32) as u32);
}

#[test]
fn test_idt_breakpoint_setup() {
    let breakpoint_handler_address: u64 = 0xFFFF_8000_0BBB_0123;

    let mut idt = InterruptDescriptorTable::new();
    idt.add_interrupt_handler(
        IdtIndex::BreakpointInterruptIndex,
        breakpoint_handler_address,
        kernel_code_selector(),
    );

    let vector = IdtIndex::BreakpointInterruptIndex.vector() as usize;
    assert_eq!(vector, 3);
    let entry = idt.table()[vector];
    assert_eq!(entry.idt_entry_options.present(), true);
    assert_eq!(entry.idt_entry_options.gate_type(), GateType::InterruptGateType);
    assert_eq!(entry.isr_address_low, breakpoint_handler_address as u16);
    assert_eq!(entry.isr_address_mid, (breakpoint_handler_address >> 16) as u16);
    assert_eq!(entry.isr_address_high, (breakpoint_handler_address >> 32) as u32);
}

#[test]
fn test_idt_double_fault_setup() {
    let double_fault_handler_address: u64 = 0xFFFF_8000_0DF0_0DF0;

    let mut idt = InterruptDescriptorTable::new();
    idt.add_interrupt_handler(
        IdtIndex::DoubleFaultInterruptIndex,
        double_fault_handler_address,
        kernel_code_selector(),
    );

    let vector = IdtIndex::DoubleFaultInterruptIndex.vector() as usize;
    assert_eq!(vector, 8);
    let entry = idt.table()[vector];
    assert_eq!(entry.idt_entry_options.present(), true);
    assert_eq!(entry.idt_entry_options.gate_type(), GateType::InterruptGateType);
    assert_eq!(entry.isr_address_low, double_fault_handler_address as u16);
    assert_eq!(entry.isr_address_mid, (double_fault_handler_address >> 16) as u16);
    assert_eq!(entry.isr_address_high, (double_fault_handler_address >> 32) as u32);
}

#[test]
fn stack_table_offset_on_installed_gate() {
    let mut idt = InterruptDescriptorTable::new();
    idt.add_interrupt_handler(
        IdtIndex::DoubleFaultInterruptIndex,
        0xFFFF_8000_0DF0_0DF0,
        kernel_code_selector(),
    );
    idt.set_interrupt_stack_table_offset(IdtIndex::DoubleFaultInterruptIndex, 1);

    let entry = idt.table()[8];
    assert_eq!(entry.idt_entry_options.interrupt_stack_table_offset(), 1);
    assert_eq!(entry.idt_entry_options.present(), true);
    assert_eq!(entry.idt_entry_options.value(), 0x8E01);
    // Installing the stack switch leaves the untouched gates dead.
    assert!(!idt.table()[9].idt_entry_options.present());
}

#[test]
fn hardware_layout_sizes() {
    assert_eq!(std::mem::size_of::<IdtEntry>(), 16);
    assert_eq!(std::mem::size_of::<IdtEntryOptions>(), 2);
}

#[test]
fn named_vectors() {
    assert_eq!(IdtIndex::DivideErrorInterruptIndex.vector(), 0);
    assert_eq!(IdtIndex::BreakpointInterruptIndex.vector(), 3);
    assert_eq!(IdtIndex::InvalidOpcodeInterruptIndex.vector(), 6);
    assert_eq!(IdtIndex::DoubleFaultInterruptIndex.vector(), 8);
    assert_eq!(IdtIndex::PageFaultInterruptIndex.vector(), 14);
    assert_eq!(IdtIndex::TimerInterruptIndex.vector(), 104);
    assert_eq!(IdtIndex::KeyboardInterruptIndex.vector(), 105);
}
