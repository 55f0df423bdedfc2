use triad::idt::{GateType, IdtEntryOptions};
use triad::privilege::KernelRings;

#[test]
fn test_idt_entry_options_construction() {
    let options: IdtEntryOptions = IdtEntryOptions::new();
    assert_eq!(options.present(), false);
}

#[test]
fn test_idt_entry_options_privilege_level() {
    let mut options: IdtEntryOptions = IdtEntryOptions::new();

    options.set_descriptor_privilege_level(KernelRings::Ring0);
    assert_eq!(options.descriptor_privilege_level(), KernelRings::Ring0);

    options.set_descriptor_privilege_level(KernelRings::Ring1);
    assert_eq!(options.descriptor_privilege_level(), KernelRings::Ring1);

    options.set_descriptor_privilege_level(KernelRings::Ring2);
    assert_eq!(options.descriptor_privilege_level(), KernelRings::Ring2);

    options.set_descriptor_privilege_level(KernelRings::Ring3);
    assert_eq!(options.descriptor_privilege_level(), KernelRings::Ring3);
}

#[test]
fn test_idt_entry_options_gate_type() {
    let mut options: IdtEntryOptions = IdtEntryOptions::new();

    options.set_gate_type(GateType::InterruptGateType);
    assert_eq!(options.gate_type(), GateType::InterruptGateType);

    options.set_gate_type(GateType::TrapGateType);
    assert_eq!(options.gate_type(), GateType::TrapGateType);
}

#[test]
fn test_idt_entry_options_ist_offset() {
    let mut options: IdtEntryOptions = IdtEntryOptions::new();

    options.set_interrupt_stack_table_offset(0);
    assert_eq!(options.interrupt_stack_table_offset(), 0);

    options.set_interrupt_stack_table_offset(1);
    assert_eq!(options.interrupt_stack_table_offset(), 1);

    options.set_interrupt_stack_table_offset(7);
    assert_eq!(options.interrupt_stack_table_offset(), 7);
}

#[test]
fn test_idt_entry_options_chained_mutation() {
    let mut options: IdtEntryOptions = IdtEntryOptions::new();
    options.set_present(true);
    options.set_descriptor_privilege_level(KernelRings::Ring0);
    options.set_gate_type(GateType::InterruptGateType);
    options.set_interrupt_stack_table_offset(1);

    assert_eq!(options.present(), true);
    assert_eq!(options.descriptor_privilege_level(), KernelRings::Ring0);
    assert_eq!(options.gate_type(), GateType::InterruptGateType);
    assert_eq!(options.interrupt_stack_table_offset(), 1);
}

#[test]
fn options_word_is_exact() {
    let mut options = IdtEntryOptions::new();
    assert_eq!(options.value(), 0);
    options.set_present(true);
    options.set_gate_type(GateType::InterruptGateType);
    assert_eq!(options.value(), 0x8E00);
    options.set_interrupt_stack_table_offset(1);
    assert_eq!(options.value(), 0x8E01);
    options.set_descriptor_privilege_level(KernelRings::Ring3);
    assert_eq!(options.value(), 0xEE01);
    options.set_gate_type(GateType::TrapGateType);
    assert_eq!(options.value(), 0xEF01);
    options.set_present(false);
    assert_eq!(options.value(), 0x6F01);
}

#[test]
fn gate_type_encodings() {
    assert_eq!(GateType::InterruptGateType.value(), 0x0E);
    assert_eq!(GateType::TrapGateType.value(), 0x0F);
    assert_eq!(GateType::new(0x0E), GateType::InterruptGateType);
    assert_eq!(GateType::new(0x0F), GateType::TrapGateType);
}
