use triad::idt::IdtIndex;
use triad::init::{
    build_kernel_gdt, build_kernel_idt, build_kernel_tss, HandlerAddresses, DOUBLE_FAULT_IST_INDEX,
    INTERRUPT_STACK_SIZE,
};
use triad::tss::TaskStateSegment;

#[test]
fn kernel_tss_records_double_fault_stack() {
    let tss = build_kernel_tss(0xFFFF_8000_0020_0000);
    assert_eq!(
        tss.interrupt_stack_table[DOUBLE_FAULT_IST_INDEX as usize],
        0xFFFF_8000_0020_0000
    );
    for slot in 1..7 {
        assert_eq!(tss.interrupt_stack_table[slot], 0);
    }
    for slot in 0..3 {
        assert_eq!(tss.privilege_stack_table[slot], 0);
    }
    assert_eq!(tss.iomap_base, 0x68);
}

#[test]
fn test_check_tss_size() {
    // The minimum size of a TSS is 0x68 bytes.
    assert_eq!(std::mem::size_of::<TaskStateSegment>(), 0x68);
}

#[test]
fn interrupt_stack_is_twenty_kibibytes() {
    assert_eq!(INTERRUPT_STACK_SIZE, 20480);
}

#[test]
fn kernel_gdt_layout_and_selectors() {
    let container = build_kernel_gdt(0x1000);
    assert_eq!(container.table.len(), 5);
    assert_eq!(container.table.pointer_limit(), 63);
    assert_eq!(container.selectors.code_selector.index(), 1);
    assert_eq!(container.selectors.data_selector.index(), 2);
    assert_eq!(container.selectors.tss_selector.index(), 3);
    assert_eq!(container.selectors.code_selector.0, 1 << 3);
    assert_eq!(container.selectors.data_selector.0, 2 << 3);
    assert_eq!(container.selectors.tss_selector.0, 3 << 3);

    let words = container.table.table_words();
    assert_eq!(words[0], 0);
    assert_eq!(words[1], (1u64 << 44) | (1 << 47) | (1 << 43) | (1 << 53));
    assert_eq!(words[2], (1u64 << 44) | (1 << 47) | (1 << 41));
    // System descriptor for a task segment at 0x1000: limit 0x67,
    // base 0x1000 in bits 16..40, type 9, present.
    assert_eq!(words[3], 0x67 | (0x1000u64 << 16) | (0x9u64 << 40) | (1u64 << 47));
    assert_eq!(words[4], 0);
}

#[test]
fn kernel_idt_installs_exactly_the_six_handlers() {
    let handlers = HandlerAddresses {
        divide_error: 0xFFFF_8000_0000_1000,
        invalid_opcode: 0xFFFF_8000_0000_2000,
        breakpoint: 0xFFFF_8000_0000_3000,
        double_fault: 0xFFFF_8000_0000_4000,
        timer: 0xFFFF_8000_0000_5000,
        keyboard: 0xFFFF_8000_0000_6000,
    };
    let code_selector = build_kernel_gdt(0x1000).selectors.code_selector;
    let idt = build_kernel_idt(&handlers, code_selector);
    assert_eq!(idt.pointer_limit(), 4095);

    let installed = [
        (IdtIndex::DivideErrorInterruptIndex, handlers.divide_error),
        (IdtIndex::InvalidOpcodeInterruptIndex, handlers.invalid_opcode),
        (IdtIndex::BreakpointInterruptIndex, handlers.breakpoint),
        (IdtIndex::DoubleFaultInterruptIndex, handlers.double_fault),
        (IdtIndex::TimerInterruptIndex, handlers.timer),
        (IdtIndex::KeyboardInterruptIndex, handlers.keyboard),
    ];
    for (index, address) in installed {
        let entry = idt.table()[index.vector() as usize];
        assert!(entry.idt_entry_options.present());
        assert_eq!(entry.handler_address(), address);
        assert_eq!(entry.segment_selector, code_selector);
    }

    // The double-fault gate switches onto stack-table slot 0 (gate
    // field 1); the others request no switch.
    let double_fault = idt.table()[IdtIndex::DoubleFaultInterruptIndex.vector() as usize];
    assert_eq!(double_fault.idt_entry_options.interrupt_stack_table_offset(), 1);
    assert_eq!(double_fault.idt_entry_options.value(), 0x8E01);
    let breakpoint = idt.table()[IdtIndex::BreakpointInterruptIndex.vector() as usize];
    assert_eq!(breakpoint.idt_entry_options.interrupt_stack_table_offset(), 0);
    assert_eq!(breakpoint.idt_entry_options.value(), 0x8E00);

    // Every vector without a handler stays dead.
    let installed_vectors = [0usize, 3, 6, 8, 104, 105];
    for (vector, entry) in idt.table().iter().enumerate() {
        if !installed_vectors.contains(&vector) {
            assert!(!entry.idt_entry_options.present());
            assert_eq!(entry.handler_address(), 0);
        }
    }
}
