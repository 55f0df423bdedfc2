use triad::gdt::{Descriptor, GlobalDescriptorTable};
use triad::privilege::KernelRings;
use triad::segment::SegmentSelector;

#[test]
fn fresh_table_holds_only_the_null_descriptor() {
    let gdt = GlobalDescriptorTable::new();
    assert_eq!(gdt.len(), 1);
    assert_eq!(gdt.table_words(), &[0u64; 8]);
}

#[test]
fn add_grows_by_descriptor_width_and_returns_pre_add_index() {
    let mut gdt = GlobalDescriptorTable::new();

    let code = gdt.add(Descriptor::kernel_code_segment());
    assert_eq!(gdt.len(), 2);
    assert_eq!(code.index(), 1);
    assert_eq!(code.ring(), KernelRings::Ring0);

    let data = gdt.add(Descriptor::kernel_data_segment());
    assert_eq!(gdt.len(), 3);
    assert_eq!(data.index(), 2);

    let tss = gdt.add(Descriptor::tss_segment(0x1000));
    assert_eq!(gdt.len(), 5);
    assert_eq!(tss.index(), 3);

    // The exact selector words: index << 3, table-indicator clear,
    // ring 0.
    assert_eq!(code.0, 0x08);
    assert_eq!(data.0, 0x10);
    assert_eq!(tss.0, 0x18);

    // The three unoccupied backing words stay null descriptors.
    assert_eq!(&gdt.table_words()[5..], &[0u64, 0, 0]);
}

#[test]
fn kernel_segment_descriptor_words() {
    let mut gdt = GlobalDescriptorTable::new();
    gdt.add(Descriptor::kernel_code_segment());
    gdt.add(Descriptor::kernel_data_segment());

    let executable_long_mode_present = (1u64 << 44) | (1 << 47) | (1 << 43) | (1 << 53);
    let writable_present = (1u64 << 44) | (1 << 47) | (1 << 41);
    assert_eq!(gdt.table_words()[1], executable_long_mode_present);
    assert_eq!(gdt.table_words()[2], writable_present);
}

#[test]
fn tss_descriptor_packs_base_limit_type_and_present() {
    let base: u64 = 0x1122_3344_5566_7788;
    let mut gdt = GlobalDescriptorTable::new();
    let selector = gdt.add(Descriptor::tss_segment(base));

    assert_eq!(selector.index(), 1);
    let low = gdt.table_words()[1];
    let high = gdt.table_words()[2];
    assert_eq!(low, 0x5500_8966_7788_0067);
    assert_eq!(high, 0x0000_0000_1122_3344);

    // The base address reassembles from the three scattered fields.
    let reassembled = ((low >> 16) & 0xFF_FFFF) | (((low >> 56) & 0xFF) << 24) | (high << 32);
    assert_eq!(reassembled, base);
    // Limit: the last byte of the 0x68-byte segment.
    assert_eq!(low & 0xFFFF, 0x67);
    // Type: available 64-bit task segment; and the present bit.
    assert_eq!((low >> 40) & 0xF, 0x9);
    assert_eq!((low >> 47) & 1, 1);
}

#[test]
fn selector_for_first_free_slot_is_ring_zero() {
    let mut gdt = GlobalDescriptorTable::new();
    let selector = gdt.add(Descriptor::kernel_code_segment());
    assert_eq!(selector, SegmentSelector::new(1, KernelRings::Ring0));
}

#[test]
fn table_fills_to_capacity_one_word_at_a_time() {
    let mut gdt = GlobalDescriptorTable::new();
    for expected_index in 1..8u16 {
        let selector = gdt.add(Descriptor::kernel_data_segment());
        assert_eq!(selector.index(), expected_index);
    }
    assert_eq!(gdt.len(), 8);
}
