use triad::privilege::KernelRings;
use triad::segment::SegmentSelector;

#[test]
fn selector_packs_index_and_ring() {
    let selector = SegmentSelector::new(2, KernelRings::Ring3);
    assert_eq!(selector.0, (2 << 3) | 3);
    assert_eq!(selector.0, 19);
}

#[test]
fn selector_ring_round_trips_for_all_rings() {
    let rings = [
        KernelRings::Ring0,
        KernelRings::Ring1,
        KernelRings::Ring2,
        KernelRings::Ring3,
    ];
    for ring in rings {
        for index in [0u16, 1, 7, 1000, 8191] {
            let selector = SegmentSelector::new(index, ring);
            assert_eq!(selector.ring(), ring);
            assert_eq!(selector.index(), index);
        }
    }
}

#[test]
fn ring_ordinals() {
    assert_eq!(KernelRings::Ring0.value(), 0);
    assert_eq!(KernelRings::Ring1.value(), 1);
    assert_eq!(KernelRings::Ring2.value(), 2);
    assert_eq!(KernelRings::Ring3.value(), 3);
    assert_eq!(KernelRings::new(0), KernelRings::Ring0);
    assert_eq!(KernelRings::new(3), KernelRings::Ring3);
}

#[test]
fn selector_sizes_match_hardware() {
    assert_eq!(std::mem::size_of::<SegmentSelector>(), 2);
}
